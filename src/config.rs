//! Player settings and their defaults.
use vstd::prelude::*;
use vstd::string::*;

use crate::playlist::Loop;

verus! {

/// How far one seek moves.
#[derive(Clone, Copy, Debug, PartialEq, Eq, Structural)]
pub enum SeekStep {
    Short,
    Long,
    Auto,
}

impl SeekStep {
    /// The setting as the configuration screen shows it.
    pub fn to_string(&self) -> (r: String)
        ensures
            r@ == match self {
                SeekStep::Short => "short(5 seconds)"@,
                SeekStep::Long => "long(30 seconds)"@,
                SeekStep::Auto => "auto(depend on audio length)"@,
            },
    {
        match self {
            SeekStep::Short => String::from_str("short(5 seconds)"),
            SeekStep::Long => String::from_str("long(30 seconds)"),
            SeekStep::Auto => String::from_str("auto(depend on audio length)"),
        }
    }
}

/// Whether playback resumes where a track was left.
#[derive(Clone, Copy, Debug, PartialEq, Eq, Structural)]
pub enum LastPosition {
    Yes,
    No,
    Auto,
}

impl LastPosition {
    /// The setting as the configuration screen shows it.
    pub fn to_string(&self) -> (r: String)
        ensures
            r@ == match self {
                LastPosition::Yes => "yes"@,
                LastPosition::No => "no"@,
                LastPosition::Auto => "auto"@,
            },
    {
        match self {
            LastPosition::Yes => String::from_str("yes"),
            LastPosition::No => String::from_str("no"),
            LastPosition::Auto => String::from_str("auto"),
        }
    }
}

/// The player's settings.
#[derive(Clone, Debug)]
pub struct Settings {
    pub music_dir: Vec<String>,
    pub music_dir_from_cli: Option<String>,
    pub disable_album_art_from_cli: bool,
    pub disable_discord_rpc_from_cli: bool,
    pub max_depth_cli: usize,
    pub loop_mode: Loop,
    pub volume: i32,
    pub speed: i32,
    pub add_playlist_front: bool,
    pub gapless: bool,
    pub podcast_simultanious_download: usize,
    pub podcast_max_retries: usize,
    pub podcast_dir: String,
    pub seek_step: SeekStep,
    pub remember_last_played_position: LastPosition,
    pub enable_exit_confirmation: bool,
    pub playlist_display_symbol: bool,
    pub playlist_select_random_track_quantity: u32,
    pub playlist_select_random_album_quantity: u32,
    pub theme_selected: String,
}

impl Settings {
    /// The default settings, with the music and podcast folders placed under
    /// `audio_dir`, the user's audio folder, which the caller finds once at
    /// start-up.
    pub fn default_for(audio_dir: &str) -> (r: Settings)
        ensures
            r.music_dir@.len() == 2,
            r.music_dir@[0]@ == audio_dir@ + "/mp3"@,
            r.music_dir@[1]@ == audio_dir@,
            r.podcast_dir@ == audio_dir@ + "/podcast"@,
            r.music_dir_from_cli is None,
            !r.disable_album_art_from_cli && !r.disable_discord_rpc_from_cli,
            r.max_depth_cli == 4,
            r.loop_mode == Loop::Queue,
            r.volume == 70 && r.speed == 10,
            !r.add_playlist_front && r.gapless,
            r.podcast_simultanious_download == 3 && r.podcast_max_retries == 3,
            r.seek_step == SeekStep::Auto,
            r.remember_last_played_position == LastPosition::Auto,
            r.enable_exit_confirmation && r.playlist_display_symbol,
            r.playlist_select_random_track_quantity == 20,
            r.playlist_select_random_album_quantity == 5,
            r.theme_selected@ == "default"@,
    {
        let mut mp3 = String::from_str(audio_dir);
        mp3.append("/mp3");
        let mut podcast = String::from_str(audio_dir);
        podcast.append("/podcast");
        let mut music_dir: Vec<String> = Vec::new();
        music_dir.push(mp3);
        music_dir.push(String::from_str(audio_dir));
        Settings {
            music_dir,
            music_dir_from_cli: None,
            disable_album_art_from_cli: false,
            disable_discord_rpc_from_cli: false,
            max_depth_cli: 4,
            loop_mode: Loop::Queue,
            volume: 70,
            speed: 10,
            add_playlist_front: false,
            gapless: true,
            podcast_simultanious_download: 3,
            podcast_max_retries: 3,
            podcast_dir: podcast,
            seek_step: SeekStep::Auto,
            remember_last_played_position: LastPosition::Auto,
            enable_exit_confirmation: true,
            playlist_display_symbol: true,
            playlist_select_random_track_quantity: 20,
            playlist_select_random_album_quantity: 5,
            theme_selected: String::from_str("default"),
        }
    }
}

} // verus!
