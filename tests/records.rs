use std::collections::VecDeque;

use termusic_queue::config::{LastPosition, SeekStep, Settings};
use termusic_queue::model::Model;
use termusic_queue::m3u::{add_source, is_playlist, playlist_get_vec, AddSource};
use termusic_queue::playlist::Loop;
use termusic_queue::sampling::{album_choice, take_draw, tracks_of_album};
use termusic_queue::text::{decimal_string, split_lines};
use termusic_queue::track::{extension, file_name, file_stem, filetype_supported, parent_folder, MediaType, Track};
use termusic_queue::track_db::{Indexable, TrackDB, TrackDBInsertable, UNKNOWN_ALBUM, UNKNOWN_TITLE};

fn model() -> Model {
    Model::new(&Settings::default_for("/m"), VecDeque::new(), Vec::new())
}

fn record(id: u64, title: &str, album: &str, file: &str) -> TrackDB {
    TrackDB {
        id,
        artist: "Artist".to_string(),
        title: title.to_string(),
        album: album.to_string(),
        genre: "no type".to_string(),
        file: file.to_string(),
        duration: 100 + id,
        name: "n".to_string(),
        ext: "mp3".to_string(),
        directory: "/m".to_string(),
        last_modified: "0".to_string(),
        last_position: 3,
    }
}

#[test]
fn random_album_of_exact_size_returns_every_track_once() {
    let records: Vec<TrackDB> = (0..5).map(|i| record(i, &format!("t{i}"), "Album", &format!("/m/{i}.mp3"))).collect();
    let picked = model().playlist_get_random_album_tracks(&records, 5);
    let mut ids: Vec<u64> = picked.iter().map(|r| r.id).collect();
    assert_eq!(ids.len(), 5);
    ids.sort();
    assert_eq!(ids, vec![0, 1, 2, 3, 4]);
}

#[test]
fn random_album_skips_small_and_unnamed_albums() {
    let mut records = vec![record(0, "a", "Small", "/m/a.mp3"), record(1, "b", UNKNOWN_ALBUM, "/m/b.mp3")];
    for i in 2..5 {
        records.push(record(i, "x", "Big", "/m/x.mp3"));
    }
    let picked = model().playlist_get_random_album_tracks(&records, 3);
    assert_eq!(picked.len(), 3);
    assert!(picked.iter().all(|r| r.album == "Big"));
    assert!(model().playlist_get_random_album_tracks(&records, 4).is_empty());
    assert!(model().playlist_get_random_album_tracks(&Vec::new(), 1).is_empty());
}

#[test]
fn random_tracks_take_only_qualifying_records() {
    let records = vec![
        record(0, UNKNOWN_TITLE, "A", "/m/a.mp3"),
        record(1, "good", "A", "/m/b.mp3"),
        record(2, "text", "A", "/m/c.txt"),
    ];
    let picked = model().playlist_get_random_tracks(&records, 4);
    assert_eq!(picked.len(), 4);
    assert!(picked.iter().all(|r| r.id == 1));
    let none = model().playlist_get_random_tracks(&vec![record(0, UNKNOWN_TITLE, "A", "/m/a.mp3")], 3);
    assert!(none.is_empty());
    assert!(model().playlist_get_random_tracks(&records, 0).is_empty());
}

#[test]
fn album_members_in_order() {
    let records = vec![record(0, "a", "X", "/a.mp3"), record(1, "b", "Y", "/b.mp3"), record(2, "c", "X", "/c.mp3")];
    let ids: Vec<u64> = tracks_of_album(&records, "X").iter().map(|r| r.id).collect();
    assert_eq!(ids, vec![0, 2]);
}

#[test]
fn stored_sentinels_read_back_as_absent() {
    let mut r = record(0, UNKNOWN_TITLE, UNKNOWN_ALBUM, "Unknown File");
    r.artist = "Unknown Artist".to_string();
    assert_eq!(r.meta_title(), None);
    assert_eq!(r.meta_album(), None);
    assert_eq!(r.meta_file(), None);
    assert_eq!(r.meta_artist(), None);
    assert_eq!(r.meta_genre(), None);
    assert_eq!(Indexable::duration(&r), 100);
    let r = record(1, "Song", "Disc", "/m/s.mp3");
    assert_eq!(r.meta_title(), Some("Song"));
    assert_eq!(r.meta_album(), Some("Disc"));
    assert_eq!(r.meta_file(), Some("/m/s.mp3"));
    let t = r.to_track();
    assert_eq!(t.title(), Some("Song"));
    assert_eq!(t.file(), Some("/m/s.mp3"));
    assert_eq!(t.genre(), None);
    assert_eq!(t.media_type, Some(MediaType::Music));
}

#[test]
fn insertable_fills_sentinels_and_decimal_time() {
    let mut t = Track::from_path("/m/dir/song.mp3");
    t.title = Some("Song".to_string());
    t.duration = 215;
    t.last_modified = 1_700_000_123;
    let ins = TrackDBInsertable::from_track(&t);
    assert_eq!(ins.title, "Song");
    assert_eq!(ins.artist, "Unknown Artist");
    assert_eq!(ins.album, "empty");
    assert_eq!(ins.genre, "no type");
    assert_eq!(ins.file, "/m/dir/song.mp3");
    assert_eq!(ins.name, "song");
    assert_eq!(ins.ext, "mp3");
    assert_eq!(ins.directory, "/m/dir");
    assert_eq!(ins.duration, 215);
    assert_eq!(ins.last_modified, "1700000123");
    assert_eq!(ins.last_position, 0);
    let mut none = Track::from_path("x");
    none.file = None;
    none.name = None;
    assert_eq!(TrackDBInsertable::from_track(&none).file, "Unknown File");
    assert_eq!(TrackDBInsertable::from_track(&none).name, "");
}

#[test]
fn live_track_accessors_have_no_sentinels() {
    let t = Track::from_path("/m/a.mp3");
    assert_eq!(t.meta_title(), None);
    assert_eq!(t.meta_file(), Some("/m/a.mp3"));
    assert_eq!(t.meta_artist(), None);
}

#[test]
fn decimal_rendering() {
    assert_eq!(decimal_string(0), "0");
    assert_eq!(decimal_string(7), "7");
    assert_eq!(decimal_string(10), "10");
    assert_eq!(decimal_string(u64::MAX), u64::MAX.to_string());
}

#[test]
fn path_parts() {
    assert_eq!(parent_folder("/m/dir/a.mp3"), "/m/dir");
    assert_eq!(parent_folder("/a.mp3"), "/");
    assert_eq!(parent_folder("a.mp3"), "");
    assert_eq!(file_name("/m/dir/a.b.mp3"), "a.b.mp3");
    assert_eq!(file_stem("/m/dir/a.b.mp3"), "a.b");
    assert_eq!(extension("/m/dir/a.b.mp3"), Some("mp3"));
    assert_eq!(extension("/m/.hidden"), None);
    assert_eq!(extension("/m.d/file"), None);
    assert_eq!(file_stem("/m/.hidden"), ".hidden");
}

#[test]
fn supported_file_types() {
    assert!(filetype_supported("/m/a.mp3"));
    assert!(filetype_supported("/m/a.flac"));
    assert!(filetype_supported("/m/a.m4a"));
    assert!(filetype_supported("https://host/ep"));
    assert!(!filetype_supported("/m/a.txt"));
    assert!(!filetype_supported("/m/mp3"));
    assert!(!filetype_supported("/m/a.MP3x"));
}

#[test]
fn line_splitting() {
    assert_eq!(split_lines("a\nb\n"), vec!["a", "b"]);
    assert_eq!(split_lines("a\n\nb"), vec!["a", "", "b"]);
    assert!(split_lines("").is_empty());
}

#[test]
fn m3u_members() {
    assert!(is_playlist("/m/list.m3u"));
    assert!(is_playlist("/m/list.m3u8"));
    assert!(!is_playlist("/m/list.txt"));
    let text = "#EXTM3U\n#EXTINF:1,x\na/b.mp3\n\n/abs/c.mp3\nhttp://h/d\n";
    assert_eq!(
        playlist_get_vec(text, "/m"),
        vec!["/m/a/b.mp3", "/abs/c.mp3", "http://h/d"]
    );
}

#[test]
fn default_settings() {
    let s = Settings::default_for("/home/u/Music");
    assert_eq!(s.music_dir, vec!["/home/u/Music/mp3", "/home/u/Music"]);
    assert_eq!(s.podcast_dir, "/home/u/Music/podcast");
    assert!(matches!(s.loop_mode, Loop::Queue));
    assert_eq!(s.volume, 70);
    assert_eq!(s.playlist_select_random_album_quantity, 5);
    assert_eq!(s.playlist_select_random_track_quantity, 20);
    assert_eq!(SeekStep::Short.to_string(), "short(5 seconds)");
    assert_eq!(SeekStep::Auto.to_string(), "auto(depend on audio length)");
    assert_eq!(LastPosition::No.to_string(), "no");
    assert_eq!(s.remember_last_played_position, LastPosition::Auto);
}

#[test]
fn one_track_draw_keeps_only_qualifying_records() {
    let mut result = Vec::new();
    take_draw(&mut result, &record(0, UNKNOWN_TITLE, "A", "/m/a.mp3"));
    take_draw(&mut result, &record(1, "t", "A", "/m/a.txt"));
    assert!(result.is_empty());
    take_draw(&mut result, &record(2, "t", "A", "/m/a.mp3"));
    assert_eq!(result.len(), 1);
    assert_eq!(result[0].id, 2);
}

#[test]
fn one_album_draw_takes_the_whole_album_or_nothing() {
    let records = vec![
        record(0, "a", "X", "/a.mp3"),
        record(1, "b", "Y", "/b.mp3"),
        record(2, "c", "X", "/c.mp3"),
        record(3, "d", UNKNOWN_ALBUM, "/d.mp3"),
    ];
    let ids: Vec<u64> = album_choice(&records, &records[2], 2).unwrap().iter().map(|r| r.id).collect();
    assert_eq!(ids, vec![0, 2]);
    assert!(album_choice(&records, &records[1], 2).is_none());
    assert!(album_choice(&records, &records[3], 1).is_none());
}

#[test]
fn random_tracks_fill_the_quantity_when_all_qualify() {
    let records: Vec<TrackDB> = (0..3).map(|i| record(i, "t", "A", &format!("/m/{i}.mp3"))).collect();
    let picked = model().playlist_get_random_tracks(&records, 7);
    assert_eq!(picked.len(), 7);
    assert!(picked.iter().all(|r| r.id < 3));
}

#[test]
fn add_source_routes_by_kind() {
    assert_eq!(add_source("/m/x.mp3", false, false), AddSource::Nothing);
    assert_eq!(add_source("/m", true, true), AddSource::Folder);
    assert_eq!(add_source("/m/l.m3u", true, false), AddSource::PlaylistFile);
    assert_eq!(add_source("/m/x.mp3", true, false), AddSource::File);
}
