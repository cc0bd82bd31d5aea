use std::collections::VecDeque;

use termusic_queue::config::Settings;
use termusic_queue::playlist::{Loop, Playlist, PlaylistError, Status};
use termusic_queue::text::split_lines;
use termusic_queue::track::{Episode, MediaType, Track};

fn settings(mode: Loop) -> Settings {
    let mut s = Settings::default_for("/music");
    s.loop_mode = mode;
    s
}

fn track(path: &str) -> Track {
    Track::from_path(path)
}

fn playlist(mode: Loop, loaded: &[&str]) -> Playlist {
    let tracks: VecDeque<Track> = loaded.iter().map(|p| track(p)).collect();
    Playlist::new(&settings(mode), tracks)
}

fn queue_files(p: &Playlist) -> Vec<String> {
    p.tracks().iter().map(|t| t.file().unwrap_or("").to_string()).collect()
}

fn current_file(p: &Playlist) -> Option<String> {
    p.current_track().and_then(|t| t.file().map(|f| f.to_string()))
}

#[test]
fn advance_playlist_mode_requeues_finished_track_at_back() {
    let mut p = playlist(Loop::Playlist, &[]);
    p.push_front(&track("B.mp3"));
    p.push_front(&track("A.mp3"));
    assert_eq!(current_file(&p), None);
    p.handle_current_track();
    assert_eq!(current_file(&p).as_deref(), Some("A.mp3"));
    assert_eq!(queue_files(&p), vec!["B.mp3"]);
    p.handle_current_track();
    assert_eq!(current_file(&p).as_deref(), Some("B.mp3"));
    assert_eq!(queue_files(&p), vec!["A.mp3"]);
}

#[test]
fn advance_single_mode_requeues_finished_track_at_front() {
    let mut p = playlist(Loop::Single, &["A.mp3", "B.mp3"]);
    assert_eq!(current_file(&p).as_deref(), Some("A.mp3"));
    p.handle_current_track();
    assert_eq!(current_file(&p).as_deref(), Some("B.mp3"));
    assert_eq!(queue_files(&p), vec!["A.mp3"]);
}

#[test]
fn advance_with_one_track_keeps_it_except_in_queue_mode() {
    for mode in [Loop::Single, Loop::Playlist] {
        let mut p = playlist(mode, &["X.mp3"]);
        p.set_status(Status::Running);
        p.handle_current_track();
        assert_eq!(current_file(&p), None);
        assert_eq!(queue_files(&p), vec!["X.mp3"]);
        assert!(p.is_stopped());
    }
    let mut p = playlist(Loop::Queue, &["X.mp3"]);
    p.handle_current_track();
    assert_eq!(current_file(&p), None);
    assert!(p.is_empty());
    assert_eq!(p.status(), Status::Stopped);

    let mut p = playlist(Loop::Queue, &[]);
    p.push_front(&track("X.mp3"));
    p.handle_current_track();
    assert_eq!(current_file(&p).as_deref(), Some("X.mp3"));
    assert!(p.is_empty());
}

#[test]
fn cycling_three_times_restores_mode_and_queue() {
    for mode in [Loop::Single, Loop::Playlist, Loop::Queue] {
        let mut p = playlist(mode, &["C.mp3", "A.mp3", "B.mp3", "D.mp3"]);
        let before = queue_files(&p);
        let first = p.cycle_loop_mode();
        p.cycle_loop_mode();
        let third = p.cycle_loop_mode();
        assert_ne!(first, mode);
        assert_eq!(third, mode);
        assert_eq!(p.get_loop_mode(), mode);
        assert_eq!(queue_files(&p), before);
    }
}

#[test]
fn cycling_rotates_one_track() {
    let mut p = playlist(Loop::Playlist, &["C.mp3", "A.mp3", "B.mp3", "D.mp3"]);
    assert_eq!(p.cycle_loop_mode(), Loop::Single);
    assert_eq!(queue_files(&p), vec!["D.mp3", "A.mp3", "B.mp3"]);
    assert_eq!(p.cycle_loop_mode(), Loop::Queue);
    assert_eq!(queue_files(&p), vec!["A.mp3", "B.mp3", "D.mp3"]);
    assert_eq!(p.cycle_loop_mode(), Loop::Playlist);
    assert_eq!(queue_files(&p), vec!["A.mp3", "B.mp3", "D.mp3"]);
    assert_eq!(p.set_loop_mode(Loop::Single), Loop::Single);
    assert_eq!(queue_files(&p), vec!["D.mp3", "A.mp3", "B.mp3"]);
}

#[test]
fn save_then_load_gives_back_the_same_tracks() {
    let p = playlist(Loop::Playlist, &["/m/a.mp3", "/m/b.flac", "/m/c.ogg"]);
    let text = p.log_text();
    assert_eq!(text, "/m/a.mp3\n/m/b.flac\n/m/c.ogg\n");
    let lines = split_lines(&text);
    let local: Vec<Option<Track>> = lines.iter().map(|l| Some(Track::from_path(l))).collect();
    let loaded = Playlist::load(&lines, &local, &Vec::new());
    let q = Playlist::new(&settings(Loop::Playlist), loaded);
    assert_eq!(current_file(&q).as_deref(), Some("/m/a.mp3"));
    assert_eq!(queue_files(&q), vec!["/m/b.flac", "/m/c.ogg"]);
}

#[test]
fn load_resolves_episodes_and_skips_unknown_lines() {
    let lines: Vec<String> = vec![
        "http://feed/ep2.mp3".to_string(),
        "/gone.mp3".to_string(),
        "".to_string(),
        "/here.mp3".to_string(),
        "http://feed/unknown.mp3".to_string(),
    ];
    let local = vec![None, None, None, Some(Track::from_path("/here.mp3")), None];
    let eps = vec![
        Episode { title: "one".to_string(), url: "http://feed/ep1.mp3".to_string(), duration: None, path: None },
        Episode { title: "two".to_string(), url: "http://feed/ep2.mp3".to_string(), duration: Some(60), path: None },
    ];
    let loaded = Playlist::load(&lines, &local, &eps);
    assert_eq!(loaded.len(), 2);
    assert_eq!(loaded[0].file(), Some("http://feed/ep2.mp3"));
    assert_eq!(loaded[0].title(), Some("two"));
    assert_eq!(loaded[0].media_type, Some(MediaType::Podcast));
    assert_eq!(loaded[0].duration, 60);
    assert_eq!(loaded[1].file(), Some("/here.mp3"));
}

#[test]
fn log_skips_tracks_without_a_file() {
    let mut p = playlist(Loop::Playlist, &["/m/a.mp3"]);
    let mut t = track("/m/b.mp3");
    t.file = None;
    p.push_front(&t);
    p.push_front(&track("/m/c.mp3"));
    assert_eq!(p.log_text(), "/m/a.mp3\n/m/c.mp3\n");
}

#[test]
fn save_m3u_of_empty_queue_is_refused() {
    let p = playlist(Loop::Playlist, &["/m/current.mp3"]);
    assert_eq!(p.save_m3u("/m/list.m3u"), Err(PlaylistError::NothingToSave));
}

#[test]
fn save_m3u_writes_relative_paths() {
    let p = playlist(Loop::Playlist, &["/m/cur.mp3", "/m/a/b.mp3", "/m/c.mp3", "rel.mp3"]);
    let text = p.save_m3u("/m/list.m3u").unwrap();
    assert_eq!(text, "#EXTM3U\na/b.mp3\nc.mp3\n");
    assert_eq!(p.get_m3u_file("/m/a"), "#EXTM3U\nb.mp3\n../c.mp3\n");
}

#[test]
fn remove_missing_twice_equals_once() {
    let mut p = playlist(Loop::Playlist, &["/m/cur.mp3", "/m/a.mp3", "/m/b.mp3", "/m/c.mp3", "/m/a.mp3"]);
    let existing = vec!["/m/a.mp3".to_string(), "/m/c.mp3".to_string()];
    p.remove_missing(&existing);
    let once = queue_files(&p);
    assert_eq!(once, vec!["/m/a.mp3", "/m/c.mp3", "/m/a.mp3"]);
    p.remove_missing(&existing);
    assert_eq!(queue_files(&p), once);
    assert_eq!(current_file(&p).as_deref(), Some("/m/cur.mp3"));
}

#[test]
fn remove_deleted_items_drops_files_not_on_disk() {
    let mut p = playlist(Loop::Playlist, &["/m/cur.mp3", "/", "/no/such/file.mp3"]);
    p.remove_deleted_items();
    assert_eq!(queue_files(&p), vec!["/"]);
    p.remove_deleted_items();
    assert_eq!(queue_files(&p), vec!["/"]);
    assert_eq!(current_file(&p).as_deref(), Some("/m/cur.mp3"));
}

#[test]
fn swaps_move_one_place_and_ignore_boundaries() {
    let mut p = playlist(Loop::Playlist, &["/cur.mp3", "a.mp3", "b.mp3", "c.mp3"]);
    p.swap_down(0);
    assert_eq!(queue_files(&p), vec!["b.mp3", "a.mp3", "c.mp3"]);
    p.swap_up(2);
    assert_eq!(queue_files(&p), vec!["b.mp3", "c.mp3", "a.mp3"]);
    p.swap_down(2);
    p.swap_up(0);
    p.swap_up(7);
    p.swap_down(7);
    assert_eq!(queue_files(&p), vec!["b.mp3", "c.mp3", "a.mp3"]);
    let mut empty = playlist(Loop::Playlist, &[]);
    empty.swap_down(0);
    empty.swap_up(0);
    assert!(empty.is_empty());
}

#[test]
fn handle_previous_brings_last_two_forward() {
    let mut p = playlist(Loop::Playlist, &["/cur.mp3", "a.mp3", "b.mp3", "c.mp3", "d.mp3"]);
    p.handle_previous();
    assert_eq!(queue_files(&p), vec!["c.mp3", "d.mp3", "a.mp3", "b.mp3"]);
    let mut one = playlist(Loop::Playlist, &["/cur.mp3", "a.mp3"]);
    one.handle_previous();
    assert_eq!(queue_files(&one), vec!["a.mp3"]);
}

#[test]
fn add_playlist_filters_and_honours_side() {
    let items = vec![track("a.mp3"), track("notes.txt"), track("b.flac"), track("http://x/pod")];
    let mut p = playlist(Loop::Playlist, &["/cur.mp3", "q.mp3"]);
    p.add_playlist(&items);
    assert_eq!(queue_files(&p), vec!["q.mp3", "a.mp3", "b.flac", "http://x/pod"]);
    assert!(p.toggle_add_front());
    p.add_playlist(&vec![track("c.ogg"), track("d.wav")]);
    assert_eq!(queue_files(&p), vec!["c.ogg", "d.wav", "q.mp3", "a.mp3", "b.flac", "http://x/pod"]);
}

#[test]
fn add_episode_goes_to_the_chosen_side() {
    let ep = Episode { title: "t".to_string(), url: "http://e".to_string(), duration: None, path: None };
    let mut p = playlist(Loop::Playlist, &["/cur.mp3", "q.mp3"]);
    p.add_episode(&ep);
    assert_eq!(queue_files(&p), vec!["q.mp3", "http://e"]);
    p.toggle_add_front();
    p.add_episode(&ep);
    assert_eq!(queue_files(&p), vec!["http://e", "q.mp3", "http://e"]);
}

#[test]
fn shuffle_keeps_the_same_tracks() {
    let mut p = playlist(Loop::Playlist, &["/cur.mp3", "a.mp3", "b.mp3", "c.mp3", "d.mp3", "e.mp3"]);
    p.shuffle();
    let mut files = queue_files(&p);
    files.sort();
    assert_eq!(files, vec!["a.mp3", "b.mp3", "c.mp3", "d.mp3", "e.mp3"]);
    assert_eq!(current_file(&p).as_deref(), Some("/cur.mp3"));
}

#[test]
fn remove_and_clear() {
    let mut p = playlist(Loop::Playlist, &["/cur.mp3", "a.mp3", "b.mp3"]);
    assert!(p.remove(5).is_none());
    assert_eq!(p.remove(0).unwrap().file(), Some("a.mp3"));
    assert_eq!(p.len(), 1);
    p.clear();
    assert!(p.is_empty());
    assert_eq!(current_file(&p).as_deref(), Some("/cur.mp3"));
}

#[test]
fn current_track_source_falls_back_to_url() {
    let ep = Episode {
        title: "t".to_string(),
        url: "http://e/ep.mp3".to_string(),
        duration: None,
        path: Some("/no/such/download.mp3".to_string()),
    };
    let mut p = playlist(Loop::Playlist, &[]);
    p.set_current_track(Some(&Track::from_episode(&ep)));
    assert_eq!(p.get_current_track().as_deref(), Some("http://e/ep.mp3"));
    p.set_current_track(Some(&track("/m/a.mp3")));
    assert_eq!(p.get_current_track().as_deref(), Some("/m/a.mp3"));
    p.set_current_track(None);
    assert_eq!(p.get_current_track(), None);
}

#[test]
fn next_track_bookkeeping() {
    let mut p = playlist(Loop::Playlist, &["/cur.mp3", "a.mp3"]);
    assert!(!p.has_next_track());
    assert_eq!(p.fetch_next_track().and_then(|t| t.file()), Some("a.mp3"));
    let t = track("a.mp3");
    p.set_next_track(Some(&t));
    p.set_next_track_duration(42);
    assert!(p.has_next_track());
    assert_eq!(p.next_track().and_then(|t| t.file()), Some("a.mp3"));
    assert_eq!(p.next_track_duration(), 42);
    if let Some(cur) = p.current_track_as_mut() {
        cur.last_position = 7;
    }
    assert_eq!(p.current_track().map(|t| t.last_position), Some(7));
}

#[test]
fn status_and_loop_labels() {
    assert_eq!(Status::Running.to_string(), "Running");
    assert_eq!(Status::Stopped.to_string(), "Stopped");
    assert_eq!(Status::Paused.to_string(), "Paused");
    assert_eq!(Status::default(), Status::Stopped);
    assert!(matches!(Loop::default(), Loop::Playlist));
    assert_eq!(Loop::Single.display(false), "single");
    assert_eq!(Loop::Playlist.display(false), "playlist");
    assert_eq!(Loop::Queue.display(false), "consume");
    assert_eq!(Loop::Single.display(true), "\u{1f502}");
    assert_eq!(Loop::Playlist.display(true), "\u{1f501}");
    assert_eq!(Loop::Queue.display(true), "\u{2b07}");
    let mut p = playlist(Loop::Playlist, &[]);
    p.set_status(Status::Paused);
    assert!(p.is_paused());
}
