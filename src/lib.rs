//! The play queue of a terminal music player and the protocol that keeps a
//! separate playback engine in step with it: the queue and its loop modes, the
//! playlist log and M3U export, the records of the metadata index, random
//! selection from that index, the engine's command set, and the controller
//! that reconciles the two sides.
pub mod config;
pub mod m3u;
pub mod model;
pub mod playlist;
pub mod playlist_laws;
pub mod protocol;
pub mod sampling;
pub mod text;
pub mod track;
pub mod track_db;
pub mod ui;
