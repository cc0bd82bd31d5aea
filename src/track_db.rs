//! The flattened record that the metadata index stores for each track, and
//! the accessors shared by live tracks and stored records.
use vstd::prelude::*;
use vstd::string::*;

use crate::text::{decimal_of, decimal_string, same_text};
use crate::track::{as_text, str_text_of, text_of, MediaType, Track};

verus! {

/// Stored in place of a missing artist.
pub const UNKNOWN_ARTIST: &'static str = "Unknown Artist";

/// Stored in place of a missing title.
pub const UNKNOWN_TITLE: &'static str = "Unknown Title";

/// Stored in place of a missing album.
pub const UNKNOWN_ALBUM: &'static str = "empty";

/// Stored in place of a missing genre.
pub const UNKNOWN_GENRE: &'static str = "no type";

/// Stored in place of a missing file path.
pub const UNKNOWN_FILE: &'static str = "Unknown File";

/// A track as the metadata index holds it. Durations are whole seconds.
#[derive(Clone, Debug)]
pub struct TrackDB {
    pub id: u64,
    pub artist: String,
    pub title: String,
    pub album: String,
    pub genre: String,
    pub file: String,
    pub duration: u64,
    pub name: String,
    pub ext: String,
    pub directory: String,
    pub last_modified: String,
    pub last_position: u64,
}

/// A track as it is written into the index; the index assigns the id.
#[derive(Clone, Debug)]
pub struct TrackDBInsertable<'a> {
    pub artist: &'a str,
    pub title: &'a str,
    pub album: &'a str,
    pub genre: &'a str,
    pub file: &'a str,
    pub duration: u64,
    pub name: &'a str,
    pub ext: &'a str,
    pub directory: &'a str,
    pub last_modified: String,
    pub last_position: u64,
}

/// `stored` with the sentinel `unknown` read back as absent.
pub open spec fn unless_sentinel(stored: Seq<char>, unknown: Seq<char>) -> Option<Seq<char>> {
    if stored == unknown {
        None
    } else {
        Some(stored)
    }
}

/// The text of `o`, or `fallback` where it is absent.
pub open spec fn text_or(o: Option<String>, fallback: Seq<char>) -> Seq<char> {
    match o {
        Some(s) => s@,
        None => fallback,
    }
}

fn text_or_else<'a>(o: &'a Option<String>, fallback: &'a str) -> (r: &'a str)
    ensures
        r@ == text_or(*o, fallback@),
{
    match as_text(o) {
        Some(s) => s,
        None => fallback,
    }
}

fn stored_unless<'a>(stored: &'a String, unknown: &str) -> (r: Option<&'a str>)
    ensures
        str_text_of(r) == unless_sentinel(stored@, unknown@),
{
    if same_text(stored.as_str(), unknown) {
        None
    } else {
        Some(stored.as_str())
    }
}

impl<'a> TrackDBInsertable<'a> {
    /// The record to insert for `t`: each missing tag becomes its sentinel,
    /// each missing name part becomes empty, the modification time is written
    /// in decimal seconds, and no position is remembered yet.
    pub fn from_track(t: &'a Track) -> (r: TrackDBInsertable<'a>)
        ensures
            r.artist@ == text_or(t.artist, UNKNOWN_ARTIST@),
            r.title@ == text_or(t.title, UNKNOWN_TITLE@),
            r.album@ == text_or(t.album, UNKNOWN_ALBUM@),
            r.genre@ == text_or(t.genre, UNKNOWN_GENRE@),
            r.file@ == text_or(t.file, UNKNOWN_FILE@),
            r.duration == t.duration,
            r.name@ == text_or(t.name, Seq::empty()),
            r.ext@ == text_or(t.ext, Seq::empty()),
            r.directory@ == text_or(t.directory, Seq::empty()),
            r.last_modified@ == decimal_of(t.last_modified as nat),
            r.last_position == 0,
    {
        proof {
            reveal_strlit("");
        }
        TrackDBInsertable {
            artist: text_or_else(&t.artist, UNKNOWN_ARTIST),
            title: text_or_else(&t.title, UNKNOWN_TITLE),
            album: text_or_else(&t.album, UNKNOWN_ALBUM),
            genre: text_or_else(&t.genre, UNKNOWN_GENRE),
            file: text_or_else(&t.file, UNKNOWN_FILE),
            duration: t.duration,
            name: text_or_else(&t.name, ""),
            ext: text_or_else(&t.ext, ""),
            directory: text_or_else(&t.directory, ""),
            last_modified: decimal_string(t.last_modified),
            last_position: 0,
        }
    }
}

fn known_text(o: Option<&str>) -> (r: Option<String>)
    ensures
        text_of(r) == str_text_of(o),
{
    match o {
        Some(s) => Some(String::from_str(s)),
        None => None,
    }
}

impl TrackDB {
    /// The music track that this record describes, with each sentinel read
    /// back as absent. The modification time is not carried over.
    pub fn to_track(&self) -> (r: Track)
        ensures
            r.media_type == Some(MediaType::Music),
            text_of(r.file) == self.file_text(),
            text_of(r.title) == self.title_text(),
            text_of(r.album) == self.album_text(),
            text_of(r.artist) == self.artist_text(),
            text_of(r.genre) == self.genre_text(),
            text_of(r.name) == Some(self.name@),
            text_of(r.ext) == Some(self.ext@),
            text_of(r.directory) == Some(self.directory@),
            r.duration == self.duration,
            r.last_position == self.last_position,
            r.last_modified == 0,
            r.podcast_localfile is None,
    {
        Track {
            media_type: Some(MediaType::Music),
            file: known_text(self.meta_file()),
            artist: known_text(self.meta_artist()),
            album: known_text(self.meta_album()),
            title: known_text(self.meta_title()),
            genre: known_text(self.meta_genre()),
            name: Some(self.name.clone()),
            ext: Some(self.ext.clone()),
            directory: Some(self.directory.clone()),
            duration: self.duration,
            last_modified: 0,
            last_position: self.last_position,
            podcast_localfile: None,
        }
    }

    /// An exact copy of this record.
    pub fn duplicate(&self) -> (r: TrackDB)
        ensures
            r == *self,
    {
        TrackDB {
            id: self.id,
            artist: self.artist.clone(),
            title: self.title.clone(),
            album: self.album.clone(),
            genre: self.genre.clone(),
            file: self.file.clone(),
            duration: self.duration,
            name: self.name.clone(),
            ext: self.ext.clone(),
            directory: self.directory.clone(),
            last_modified: self.last_modified.clone(),
            last_position: self.last_position,
        }
    }
}

/// Metadata that search and random selection read, the same way from a live
/// track and from a stored record. Absent values are `None`, never a sentinel.
pub trait Indexable {
    spec fn file_text(&self) -> Option<Seq<char>>;

    spec fn title_text(&self) -> Option<Seq<char>>;

    spec fn album_text(&self) -> Option<Seq<char>>;

    spec fn artist_text(&self) -> Option<Seq<char>>;

    spec fn genre_text(&self) -> Option<Seq<char>>;

    spec fn duration_secs(&self) -> u64;

    fn meta_file(&self) -> (r: Option<&str>)
        ensures
            str_text_of(r) == self.file_text(),
    ;

    fn meta_title(&self) -> (r: Option<&str>)
        ensures
            str_text_of(r) == self.title_text(),
    ;

    fn meta_album(&self) -> (r: Option<&str>)
        ensures
            str_text_of(r) == self.album_text(),
    ;

    fn meta_artist(&self) -> (r: Option<&str>)
        ensures
            str_text_of(r) == self.artist_text(),
    ;

    fn meta_genre(&self) -> (r: Option<&str>)
        ensures
            str_text_of(r) == self.genre_text(),
    ;

    fn duration(&self) -> (r: u64)
        ensures
            r == self.duration_secs(),
    ;
}

impl Indexable for Track {
    open spec fn file_text(&self) -> Option<Seq<char>> {
        text_of(self.file)
    }

    open spec fn title_text(&self) -> Option<Seq<char>> {
        text_of(self.title)
    }

    open spec fn album_text(&self) -> Option<Seq<char>> {
        text_of(self.album)
    }

    open spec fn artist_text(&self) -> Option<Seq<char>> {
        text_of(self.artist)
    }

    open spec fn genre_text(&self) -> Option<Seq<char>> {
        text_of(self.genre)
    }

    open spec fn duration_secs(&self) -> u64 {
        self.duration
    }

    fn meta_file(&self) -> (r: Option<&str>) {
        as_text(&self.file)
    }

    fn meta_title(&self) -> (r: Option<&str>) {
        as_text(&self.title)
    }

    fn meta_album(&self) -> (r: Option<&str>) {
        as_text(&self.album)
    }

    fn meta_artist(&self) -> (r: Option<&str>) {
        as_text(&self.artist)
    }

    fn meta_genre(&self) -> (r: Option<&str>) {
        as_text(&self.genre)
    }

    fn duration(&self) -> (r: u64) {
        self.duration
    }
}

impl Indexable for TrackDB {
    open spec fn file_text(&self) -> Option<Seq<char>> {
        unless_sentinel(self.file@, UNKNOWN_FILE@)
    }

    open spec fn title_text(&self) -> Option<Seq<char>> {
        unless_sentinel(self.title@, UNKNOWN_TITLE@)
    }

    open spec fn album_text(&self) -> Option<Seq<char>> {
        unless_sentinel(self.album@, UNKNOWN_ALBUM@)
    }

    open spec fn artist_text(&self) -> Option<Seq<char>> {
        unless_sentinel(self.artist@, UNKNOWN_ARTIST@)
    }

    open spec fn genre_text(&self) -> Option<Seq<char>> {
        unless_sentinel(self.genre@, UNKNOWN_GENRE@)
    }

    open spec fn duration_secs(&self) -> u64 {
        self.duration
    }

    fn meta_file(&self) -> (r: Option<&str>) {
        stored_unless(&self.file, UNKNOWN_FILE)
    }

    fn meta_title(&self) -> (r: Option<&str>) {
        stored_unless(&self.title, UNKNOWN_TITLE)
    }

    fn meta_album(&self) -> (r: Option<&str>) {
        stored_unless(&self.album, UNKNOWN_ALBUM)
    }

    fn meta_artist(&self) -> (r: Option<&str>) {
        stored_unless(&self.artist, UNKNOWN_ARTIST)
    }

    fn meta_genre(&self) -> (r: Option<&str>) {
        stored_unless(&self.genre, UNKNOWN_GENRE)
    }

    fn duration(&self) -> (r: u64) {
        self.duration
    }
}

} // verus!
