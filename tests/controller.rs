use std::collections::VecDeque;

use termusic_queue::config::Settings;
use termusic_queue::model::{EngineAction, EngineEvent, Model, ModelError, PLMsg, Podcast, SessionState};
use termusic_queue::playlist::{Loop, PlaylistError, Status};
use termusic_queue::protocol::{
    decode_reply, settle_round_trip, volume_from_wire, PlayerProgress, PlayerRequest, PlayerResponse,
    ProtocolError, WireReply, VOLUME_MAX,
};
use termusic_queue::track::{Episode, Track};
use termusic_queue::track_db::TrackDB;
use termusic_queue::ui::UI;

fn model(mode: Loop, gapless: bool, loaded: &[&str]) -> Model {
    let mut s = Settings::default_for("/music");
    s.loop_mode = mode;
    s.gapless = gapless;
    let tracks: VecDeque<Track> = loaded.iter().map(|p| Track::from_path(p)).collect();
    Model::new(&s, tracks, Vec::new())
}

fn queue_files(m: &Model) -> Vec<String> {
    m.playlist.tracks().iter().map(|t| t.file().unwrap_or("").to_string()).collect()
}

fn action_names(actions: &[EngineAction]) -> Vec<String> {
    actions
        .iter()
        .map(|a| match a {
            EngineAction::Play(t) => format!("play {}", t.file().unwrap_or("")),
            EngineAction::Preload(t) => format!("preload {}", t.file().unwrap_or("")),
            EngineAction::Pause => "pause".to_string(),
            EngineAction::Resume => "resume".to_string(),
            EngineAction::Stop => "stop".to_string(),
            EngineAction::SkipNext => "next".to_string(),
            EngineAction::SkipPrevious => "previous".to_string(),
            EngineAction::SyncQueue => "sync".to_string(),
        })
        .collect()
}

fn wire(volume: u32) -> WireReply {
    WireReply { status: 2, volume, speed: -3, gapless: true, position: 5, total_duration: 9, current_track_index: 1 }
}

#[test]
fn volume_never_exceeds_protocol_maximum() {
    assert_eq!(volume_from_wire(u32::MAX), VOLUME_MAX);
    assert_eq!(volume_from_wire(101), 100);
    assert_eq!(volume_from_wire(100), 100);
    assert_eq!(volume_from_wire(37), 37);
    assert_eq!(decode_reply(PlayerRequest::VolumeUp, &wire(70_000)), PlayerResponse::Volume(100));
    assert_eq!(decode_reply(PlayerRequest::VolumeDown, &wire(0)), PlayerResponse::Volume(0));
}

#[test]
fn replies_carry_what_each_command_needs() {
    let w = wire(50);
    assert_eq!(decode_reply(PlayerRequest::TogglePause, &w), PlayerResponse::Status(Status::Paused));
    assert_eq!(Status::from_u32(0), Status::Running);
    assert_eq!(Status::from_u32(1), Status::Stopped);
    assert_eq!(Status::from_u32(9), Status::Stopped);
    let progress = PlayerProgress { position: 5, total_duration: 9, current_track_index: 1 };
    assert_eq!(decode_reply(PlayerRequest::GetProgress, &w), PlayerResponse::Progress(progress));
    assert_eq!(decode_reply(PlayerRequest::SeekForward, &w), PlayerResponse::Progress(progress));
    assert_eq!(decode_reply(PlayerRequest::SpeedDown, &w), PlayerResponse::Speed(-3));
    assert_eq!(decode_reply(PlayerRequest::ToggleGapless, &w), PlayerResponse::Gapless(true));
    assert_eq!(decode_reply(PlayerRequest::SkipNext, &w), PlayerResponse::Ack);
    assert_eq!(decode_reply(PlayerRequest::ReloadPlaylist, &w), PlayerResponse::Ack);
}

#[test]
fn transport_errors_are_not_replies() {
    assert_eq!(
        settle_round_trip(PlayerRequest::CycleLoop, Err(ProtocolError::Transport)),
        Err(ProtocolError::Transport)
    );
    assert_eq!(settle_round_trip(PlayerRequest::CycleLoop, Ok(wire(1))), Ok(PlayerResponse::Ack));
}

#[test]
fn session_plays_through_the_queue() {
    let mut m = model(Loop::Queue, false, &[]);
    m.playlist.push_front(&Track::from_path("b.mp3"));
    m.playlist.push_front(&Track::from_path("a.mp3"));
    m.reconcile(EngineEvent::Start);
    assert_eq!(m.state, SessionState::Playing);
    assert_eq!(m.playlist.status(), Status::Running);
    m.reconcile(EngineEvent::PauseToggled);
    assert_eq!(m.state, SessionState::Paused);
    m.reconcile(EngineEvent::Start);
    m.reconcile(EngineEvent::PauseToggled);
    assert_eq!(m.state, SessionState::Playing);
    m.reconcile(EngineEvent::TransportFailed);
    m.reconcile(EngineEvent::TrackFinished);
    m.reconcile(EngineEvent::TrackFinished);
    assert_eq!(m.state, SessionState::Stopped);
    assert!(m.playlist.is_empty());
    assert_eq!(
        action_names(&m.take_actions()),
        vec!["play a.mp3", "pause", "resume", "play b.mp3", "stop"]
    );
    assert!(m.take_actions().is_empty());
}

#[test]
fn gapless_preloads_the_next_track() {
    let mut m = model(Loop::Playlist, true, &["a.mp3", "b.mp3"]);
    m.reconcile(EngineEvent::NearTrackEnd);
    assert!(m.take_actions().is_empty());
    m.reconcile(EngineEvent::Start);
    m.reconcile(EngineEvent::NearTrackEnd);
    assert!(m.playlist.has_next_track());
    m.reconcile(EngineEvent::TrackFinished);
    assert!(!m.playlist.has_next_track());
    assert_eq!(queue_files(&m), vec!["a.mp3"]);
    assert_eq!(action_names(&m.take_actions()), vec!["play a.mp3", "preload b.mp3", "play b.mp3"]);

    let mut off = model(Loop::Playlist, false, &["a.mp3", "b.mp3"]);
    off.reconcile(EngineEvent::Start);
    off.reconcile(EngineEvent::NearTrackEnd);
    assert!(!off.playlist.has_next_track());
}

#[test]
fn add_episode_reports_bad_selection() {
    let ep = Episode { title: "e".to_string(), url: "http://e".to_string(), duration: None, path: None };
    let s = Settings::default_for("/music");
    let mut empty = Model::new(&s, VecDeque::new(), Vec::new());
    assert_eq!(empty.playlist_add_episode(0), Ok(()));
    assert!(empty.take_actions().is_empty());
    let pods = vec![Podcast { title: "p".to_string(), episodes: vec![ep] }];
    let mut m = Model::new(&s, VecDeque::new(), pods);
    assert_eq!(m.playlist_add_episode(3), Err(ModelError::EpisodeNotFound));
    m.podcasts_index = 4;
    assert_eq!(m.playlist_add_episode(0), Err(ModelError::PodcastNotFound));
    m.podcasts_index = 0;
    assert_eq!(m.playlist_add_episode(0), Ok(()));
    assert_eq!(queue_files(&m), vec!["http://e"]);
    assert_eq!(action_names(&m.take_actions()), vec!["sync"]);
}

#[test]
fn queue_changes_request_a_sync() {
    let mut m = model(Loop::Playlist, false, &["/cur.mp3", "a.mp3", "b.mp3"]);
    m.playlist_delete_item(0);
    m.playlist_shuffle();
    m.playlist_clear();
    m.playlist_delete_item(0);
    m.playlist_add(&vec![Track::from_path("c.mp3"), Track::from_path("c.txt")]);
    assert_eq!(queue_files(&m), vec!["c.mp3"]);
    m.playlist_update_library_delete();
    assert!(m.playlist.is_empty());
    assert_eq!(action_names(&m.take_actions()), vec!["sync", "sync", "sync", "sync", "sync"]);
    assert_eq!(m.playlist_save_m3u("/m/x.m3u"), Err(PlaylistError::NothingToSave));
}

#[test]
fn random_additions_come_from_the_index() {
    let rec = |id: u64, album: &str| TrackDB {
        id,
        artist: "a".to_string(),
        title: format!("t{id}"),
        album: album.to_string(),
        genre: "g".to_string(),
        file: format!("/m/{id}.mp3"),
        duration: 1,
        name: "n".to_string(),
        ext: "mp3".to_string(),
        directory: "/m".to_string(),
        last_modified: "1".to_string(),
        last_position: 0,
    };
    let records: Vec<TrackDB> = (0..5).map(|i| rec(i, "One")).collect();
    let mut m = model(Loop::Playlist, false, &[]);
    m.playlist_add_random_album(&records);
    let mut files = queue_files(&m);
    files.sort();
    assert_eq!(files, vec!["/m/0.mp3", "/m/1.mp3", "/m/2.mp3", "/m/3.mp3", "/m/4.mp3"]);
    m.playlist_clear();
    m.random_track_quantity = 3;
    m.playlist_add_random_tracks(&records);
    assert_eq!(m.playlist.len(), 3);
}

#[test]
fn playlist_messages_dispatch() {
    let mut m = model(Loop::Playlist, false, &["/cur.mp3", "a.mp3", "b.mp3", "c.mp3"]);
    assert!(m.update_playlist(&PLMsg::SwapDown(0)));
    assert_eq!(queue_files(&m), vec!["b.mp3", "a.mp3", "c.mp3"]);
    assert!(m.update_playlist(&PLMsg::SwapUp(2)));
    assert_eq!(queue_files(&m), vec!["b.mp3", "c.mp3", "a.mp3"]);
    assert!(m.update_playlist(&PLMsg::LoopModeCycle));
    assert_eq!(m.playlist.get_loop_mode(), Loop::Single);
    assert_eq!(queue_files(&m), vec!["a.mp3", "b.mp3", "c.mp3"]);
    assert!(m.update_playlist(&PLMsg::AddFront));
    assert!(m.update_playlist(&PLMsg::NextSong));
    assert!(m.update_playlist(&PLMsg::PrevSong));
    assert!(!m.update_playlist(&PLMsg::Add("/x".to_string())));
    assert!(!m.update_playlist(&PLMsg::CmusLQueue));
    assert!(!m.update_playlist(&PLMsg::PlaylistTableBlurUp));
    assert!(m.update_playlist(&PLMsg::PlaySelected(1)));
    assert_eq!(m.playlist.current_track().and_then(|t| t.file()), Some("b.mp3"));
    assert_eq!(queue_files(&m), vec!["/cur.mp3", "a.mp3", "c.mp3"]);
    assert!(m.update_playlist(&PLMsg::Delete(0)));
    assert!(m.update_playlist(&PLMsg::DeleteAll));
    assert!(m.playlist.is_empty());
    assert_eq!(
        action_names(&m.take_actions()),
        vec!["sync", "sync", "sync", "next", "previous", "sync", "play b.mp3", "sync", "sync"]
    );
}

#[test]
fn main_loop_cadence() {
    let s = Settings::default_for("/music");
    let mut ui = UI::new(&s, VecDeque::new(), Vec::new());
    let polls: Vec<bool> = (0..161).map(|_| ui.tick()).collect();
    assert!(polls[0] && polls[80] && polls[160]);
    assert_eq!(polls.iter().filter(|p| **p).count(), 3);
    assert!(ui.check_force_redraw(1000));
    assert!(!ui.check_force_redraw(999));
}

#[test]
fn adding_nothing_admissible_does_not_resync() {
    let mut m = model(Loop::Playlist, false, &["/cur.mp3"]);
    m.playlist_add(&Vec::new());
    m.playlist_add(&vec![Track::from_path("notes.txt")]);
    assert!(m.playlist.is_empty());
    assert!(m.take_actions().is_empty());
    m.playlist_add(&vec![Track::from_path("a.mp3")]);
    assert_eq!(action_names(&m.take_actions()), vec!["sync"]);
}
