//! Tracks of the queue, podcast episodes, and the path rules they rest on.
use vstd::prelude::*;
use vstd::string::*;

use crate::text::{has_prefix, last_index_of, rfind_char, same_text, starts_with};

verus! {

/// The text in an optional string.
pub open spec fn text_of(o: Option<String>) -> Option<Seq<char>> {
    match o {
        Some(s) => Some(s@),
        None => None,
    }
}

/// The text in an optional borrowed string.
pub open spec fn str_text_of(o: Option<&str>) -> Option<Seq<char>> {
    match o {
        Some(s) => Some(s@),
        None => None,
    }
}

/// Borrows the text of an optional string.
pub fn as_text(o: &Option<String>) -> (r: Option<&str>)
    ensures
        str_text_of(r) == text_of(*o),
{
    match o {
        Some(s) => Some(s.as_str()),
        None => None,
    }
}

/// A copy of an optional string.
pub fn copy_text(o: &Option<String>) -> (r: Option<String>)
    ensures
        r == *o,
{
    match o {
        Some(s) => Some(s.clone()),
        None => None,
    }
}

/// What a track plays from: a local file, or a podcast episode's URL.
#[derive(Clone, Copy, Debug, PartialEq, Eq, Structural)]
pub enum MediaType {
    Music,
    Podcast,
}

/// One playable item and its metadata. Durations and times are whole seconds;
/// `last_modified` counts from the Unix epoch.
#[derive(Clone, Debug)]
pub struct Track {
    pub media_type: Option<MediaType>,
    /// The local path of a music track, or the URL of a podcast episode.
    pub file: Option<String>,
    pub artist: Option<String>,
    pub album: Option<String>,
    pub title: Option<String>,
    pub genre: Option<String>,
    pub name: Option<String>,
    pub ext: Option<String>,
    pub directory: Option<String>,
    pub duration: u64,
    pub last_modified: u64,
    pub last_position: u64,
    /// Where a downloaded podcast episode was saved.
    pub podcast_localfile: Option<String>,
}

/// A podcast episode as the podcast store keeps it.
#[derive(Clone, Debug)]
pub struct Episode {
    pub title: String,
    pub url: String,
    /// Length in seconds, where the feed gave one.
    pub duration: Option<u64>,
    /// Where the episode was downloaded, if it was.
    pub path: Option<String>,
}

/// Where the directory part of `p` ends: its last `'/'`.
pub open spec fn parent_of(p: Seq<char>) -> Seq<char> {
    match last_index_of(p, '/') {
        Some(i) => if i == 0 {
            seq!['/']
        } else {
            p.subrange(0, i)
        },
        None => Seq::empty(),
    }
}

/// The last component of `p`.
pub open spec fn file_name_of(p: Seq<char>) -> Seq<char> {
    match last_index_of(p, '/') {
        Some(i) => p.subrange(i + 1, p.len() as int),
        None => p,
    }
}

/// The extension of `p`: what follows the last `'.'` of its file name, unless
/// that dot opens the name.
pub open spec fn extension_of(p: Seq<char>) -> Option<Seq<char>> {
    let f = file_name_of(p);
    match last_index_of(f, '.') {
        Some(i) => if i == 0 {
            None
        } else {
            Some(f.subrange(i + 1, f.len() as int))
        },
        None => None,
    }
}

/// The file name of `p` without its extension.
pub open spec fn stem_of(p: Seq<char>) -> Seq<char> {
    let f = file_name_of(p);
    match last_index_of(f, '.') {
        Some(i) => if i == 0 {
            f
        } else {
            f.subrange(0, i)
        },
        None => f,
    }
}

/// The directory that holds `p`.
pub fn parent_folder(p: &str) -> (r: String)
    ensures
        r@ == parent_of(p@),
{
    match rfind_char(p, '/') {
        Some(i) => {
            if i == 0 {
                proof {
                    reveal_strlit("/");
                }
                String::from_str("/")
            } else {
                String::from_str(p.substring_char(0, i))
            }
        },
        None => String::new(),
    }
}

/// The last component of `p`.
pub fn file_name(p: &str) -> (r: &str)
    ensures
        r@ == file_name_of(p@),
{
    let n = p.unicode_len();
    match rfind_char(p, '/') {
        Some(i) => p.substring_char(i + 1, n),
        None => p,
    }
}

/// The extension of `p`, if it has one.
pub fn extension(p: &str) -> (r: Option<&str>)
    ensures
        str_text_of(r) == extension_of(p@),
{
    let f = file_name(p);
    let n = f.unicode_len();
    match rfind_char(f, '.') {
        Some(i) => {
            if i == 0 {
                None
            } else {
                Some(f.substring_char(i + 1, n))
            }
        },
        None => None,
    }
}

/// The file name of `p` without its extension.
pub fn file_stem(p: &str) -> (r: &str)
    ensures
        r@ == stem_of(p@),
{
    let f = file_name(p);
    match rfind_char(f, '.') {
        Some(i) => {
            if i == 0 {
                f
            } else {
                f.substring_char(0, i)
            }
        },
        None => f,
    }
}

/// The audio formats the player can open, by extension.
pub open spec fn supported_extension(e: Seq<char>) -> bool {
    ||| e == "mp3"@
    ||| e == "aiff"@
    ||| e == "flac"@
    ||| e == "m4a"@
    ||| e == "opus"@
    ||| e == "ogg"@
    ||| e == "wav"@
    ||| e == "webm"@
    ||| e == "mkv"@
    ||| e == "mka"@
}

/// A remote item: its text starts with the `http` scheme.
pub open spec fn is_remote(p: Seq<char>) -> bool {
    has_prefix(p, "http"@)
}

/// The player can take `p`: a remote item, or a file of a supported format.
pub open spec fn supported(p: Seq<char>) -> bool {
    is_remote(p) || match extension_of(p) {
        Some(e) => supported_extension(e),
        None => false,
    }
}

/// Whether `p` names something the player can open.
pub fn filetype_supported(p: &str) -> (r: bool)
    ensures
        r == supported(p@),
{
    if starts_with(p, "http") {
        return true;
    }
    match extension(p) {
        Some(e) => {
            same_text(e, "mp3") || same_text(e, "aiff") || same_text(e, "flac") || same_text(
                e,
                "m4a",
            ) || same_text(e, "opus") || same_text(e, "ogg") || same_text(e, "wav") || same_text(
                e,
                "webm",
            ) || same_text(e, "mkv") || same_text(e, "mka")
        },
        None => false,
    }
}

/// The track that plays podcast episode `ep`: its URL, title, length and
/// download, with no other tags.
pub open spec fn episode_track(ep: Episode) -> Track {
    Track {
        media_type: Some(MediaType::Podcast),
        file: Some(ep.url),
        artist: None,
        album: None,
        title: Some(ep.title),
        genre: None,
        name: None,
        ext: None,
        directory: None,
        duration: match ep.duration {
            Some(d) => d,
            None => 0,
        },
        last_modified: 0,
        last_position: 0,
        podcast_localfile: ep.path,
    }
}

impl Track {
    /// A music track for the local file at `path`; tags are left unread.
    pub fn from_path(path: &str) -> (r: Track)
        ensures
            r.media_type == Some(MediaType::Music),
            text_of(r.file) == Some(path@),
            text_of(r.directory) == Some(parent_of(path@)),
            text_of(r.name) == Some(stem_of(path@)),
            text_of(r.ext) == extension_of(path@),
            r.artist is None && r.album is None && r.title is None && r.genre is None,
            r.podcast_localfile is None,
            r.duration == 0 && r.last_modified == 0 && r.last_position == 0,
    {
        let ext = match extension(path) {
            Some(e) => Some(String::from_str(e)),
            None => None,
        };
        Track {
            media_type: Some(MediaType::Music),
            file: Some(String::from_str(path)),
            artist: None,
            album: None,
            title: None,
            genre: None,
            name: Some(String::from_str(file_stem(path))),
            ext,
            directory: Some(parent_folder(path)),
            duration: 0,
            last_modified: 0,
            last_position: 0,
            podcast_localfile: None,
        }
    }

    /// The track that plays podcast episode `ep` (see `episode_track`).
    pub fn from_episode(ep: &Episode) -> (r: Track)
        ensures
            r == episode_track(*ep),
    {
        Track {
            media_type: Some(MediaType::Podcast),
            file: Some(ep.url.clone()),
            artist: None,
            album: None,
            title: Some(ep.title.clone()),
            genre: None,
            name: None,
            ext: None,
            directory: None,
            duration: match ep.duration {
                Some(d) => d,
                None => 0,
            },
            last_modified: 0,
            last_position: 0,
            podcast_localfile: copy_text(&ep.path),
        }
    }

    /// An exact copy of this track.
    pub fn duplicate(&self) -> (r: Track)
        ensures
            r == *self,
    {
        Track {
            media_type: self.media_type,
            file: copy_text(&self.file),
            artist: copy_text(&self.artist),
            album: copy_text(&self.album),
            title: copy_text(&self.title),
            genre: copy_text(&self.genre),
            name: copy_text(&self.name),
            ext: copy_text(&self.ext),
            directory: copy_text(&self.directory),
            duration: self.duration,
            last_modified: self.last_modified,
            last_position: self.last_position,
            podcast_localfile: copy_text(&self.podcast_localfile),
        }
    }

    pub fn file(&self) -> (r: Option<&str>)
        ensures
            str_text_of(r) == text_of(self.file),
    {
        as_text(&self.file)
    }

    pub fn artist(&self) -> (r: Option<&str>)
        ensures
            str_text_of(r) == text_of(self.artist),
    {
        as_text(&self.artist)
    }

    pub fn album(&self) -> (r: Option<&str>)
        ensures
            str_text_of(r) == text_of(self.album),
    {
        as_text(&self.album)
    }

    pub fn title(&self) -> (r: Option<&str>)
        ensures
            str_text_of(r) == text_of(self.title),
    {
        as_text(&self.title)
    }

    pub fn genre(&self) -> (r: Option<&str>)
        ensures
            str_text_of(r) == text_of(self.genre),
    {
        as_text(&self.genre)
    }

    pub fn name(&self) -> (r: Option<&str>)
        ensures
            str_text_of(r) == text_of(self.name),
    {
        as_text(&self.name)
    }

    pub fn ext(&self) -> (r: Option<&str>)
        ensures
            str_text_of(r) == text_of(self.ext),
    {
        as_text(&self.ext)
    }

    pub fn directory(&self) -> (r: Option<&str>)
        ensures
            str_text_of(r) == text_of(self.directory),
    {
        as_text(&self.directory)
    }
}

} // verus!
