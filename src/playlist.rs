//! The play queue: the current track, the tracks to come, and the loop mode
//! that decides what happens to a track once it has played.
use std::collections::VecDeque;
use vstd::prelude::*;
use vstd::string::*;

use rand::seq::SliceRandom;

use crate::config::Settings;
use crate::text::{joined_lines, push_line, same_text};
use crate::track::{
    as_text, episode_track, filetype_supported, is_remote, parent_folder, parent_of, supported,
    text_of, Episode, MediaType, Track,
};

verus! {

/// Whether the player is playing.
#[derive(Clone, Copy, Debug, PartialEq, Eq, Structural)]
pub enum Status {
    Running,
    Stopped,
    Paused,
}

impl Status {
    /// The status as the player shows it.
    pub fn to_string(&self) -> (r: String)
        ensures
            r@ == match self {
                Status::Running => "Running"@,
                Status::Stopped => "Stopped"@,
                Status::Paused => "Paused"@,
            },
    {
        match self {
            Status::Running => String::from_str("Running"),
            Status::Stopped => String::from_str("Stopped"),
            Status::Paused => String::from_str("Paused"),
        }
    }
}

impl Default for Status {
    fn default() -> (r: Status)
        ensures
            r == Status::Stopped,
    {
        Status::Stopped
    }
}

/// What becomes of a track once it has played: `Single` puts it back at the
/// front of the queue, `Playlist` at the back, and `Queue` drops it.
#[derive(Clone, Copy, Debug, PartialEq, Eq, Structural)]
pub enum Loop {
    Single,
    Playlist,
    Queue,
}

impl Default for Loop {
    fn default() -> (r: Loop)
        ensures
            r == Loop::Playlist,
    {
        Loop::Playlist
    }
}

impl Loop {
    /// The mode as a symbol, or as a word.
    pub fn display(self, display_symbol: bool) -> (r: String)
        ensures
            r@ == if display_symbol {
                match self {
                    Loop::Single => "\u{1f502}"@,
                    Loop::Playlist => "\u{1f501}"@,
                    Loop::Queue => "\u{2b07}"@,
                }
            } else {
                match self {
                    Loop::Single => "single"@,
                    Loop::Playlist => "playlist"@,
                    Loop::Queue => "consume"@,
                }
            },
    {
        if display_symbol {
            match self {
                Loop::Single => String::from_str("\u{1f502}"),
                Loop::Playlist => String::from_str("\u{1f501}"),
                Loop::Queue => String::from_str("\u{2b07}"),
            }
        } else {
            match self {
                Loop::Single => String::from_str("single"),
                Loop::Playlist => String::from_str("playlist"),
                Loop::Queue => String::from_str("consume"),
            }
        }
    }
}

/// The mode that follows `m` when the user cycles: Queue, Playlist, Single,
/// and back to Queue.
pub open spec fn next_mode(m: Loop) -> Loop {
    match m {
        Loop::Queue => Loop::Playlist,
        Loop::Playlist => Loop::Single,
        Loop::Single => Loop::Queue,
    }
}

/// The mode that `next_mode` turns into `m`.
pub open spec fn prev_mode(m: Loop) -> Loop {
    match m {
        Loop::Playlist => Loop::Queue,
        Loop::Single => Loop::Playlist,
        Loop::Queue => Loop::Single,
    }
}

/// `q` with its last track moved to the front.
pub open spec fn back_to_front(q: Seq<Track>) -> Seq<Track> {
    if q.len() == 0 {
        q
    } else {
        seq![q.last()] + q.drop_last()
    }
}

/// `q` with its first track moved to the back.
pub open spec fn front_to_back(q: Seq<Track>) -> Seq<Track> {
    if q.len() == 0 {
        q
    } else {
        q.drop_first().push(q[0])
    }
}

/// The queue after leaving mode `m` for `next_mode(m)`: entering Single
/// brings the last track forward, entering Queue sends the first to the back.
pub open spec fn cycled_queue(m: Loop, q: Seq<Track>) -> Seq<Track> {
    match m {
        Loop::Queue => q,
        Loop::Playlist => back_to_front(q),
        Loop::Single => front_to_back(q),
    }
}

/// The rest of the queue once `finished` has played, under mode `m`.
pub open spec fn requeued(m: Loop, finished: Option<Track>, rest: Seq<Track>) -> Seq<Track> {
    match finished {
        None => rest,
        Some(t) => match m {
            Loop::Single => seq![t] + rest,
            Loop::Playlist => rest.push(t),
            Loop::Queue => rest,
        },
    }
}

/// The first track of `q`, if any.
pub open spec fn head_of(q: Seq<Track>) -> Option<Track> {
    if q.len() == 0 {
        None
    } else {
        Some(q[0])
    }
}

/// `q` without its first track.
pub open spec fn tail_of(q: Seq<Track>) -> Seq<Track> {
    if q.len() == 0 {
        q
    } else {
        q.drop_first()
    }
}

/// `q` with the tracks at `i` and `j` exchanged.
pub open spec fn swapped(q: Seq<Track>, i: int, j: int) -> Seq<Track> {
    q.update(i, q[j]).update(j, q[i])
}

/// Why a playlist operation was refused.
#[derive(Clone, Copy, Debug, PartialEq, Eq, Structural)]
pub enum PlaylistError {
    /// The queue is empty, so there is nothing to export.
    NothingToSave,
}

/// The tracks that the playlist log holds: the current one, then the queue.
pub open spec fn saved_tracks(current: Option<Track>, q: Seq<Track>) -> Seq<Track> {
    match current {
        Some(c) => seq![c] + q,
        None => q,
    }
}

/// The log lines for `ts`: the file of each track that has one, in order.
pub open spec fn log_entries(ts: Seq<Track>) -> Seq<Seq<char>>
    decreases ts.len(),
{
    if ts.len() == 0 {
        Seq::empty()
    } else {
        let init = log_entries(ts.drop_last());
        match ts.last().file {
            Some(f) => init.push(f@),
            None => init,
        }
    }
}

/// The first of `eps` whose URL is `url`.
pub open spec fn first_episode(eps: Seq<Episode>, url: Seq<char>) -> Option<Episode>
    decreases eps.len(),
{
    if eps.len() == 0 {
        None
    } else if eps[0].url@ == url {
        Some(eps[0])
    } else {
        first_episode(eps.drop_first(), url)
    }
}

/// The track that a log line stands for: the local track read for it, else,
/// for a remote line, the first known episode at that URL.
pub open spec fn resolved_line(line: Seq<char>, local: Option<Track>, eps: Seq<Episode>) -> Option<
    Track,
> {
    match local {
        Some(t) => Some(t),
        None => if is_remote(line) {
            match first_episode(eps, line) {
                Some(e) => Some(episode_track(e)),
                None => None,
            }
        } else {
            None
        },
    }
}

/// The tracks that the first `n` log lines stand for; a line that stands for
/// none is skipped.
pub open spec fn resolved(
    lines: Seq<Seq<char>>,
    local: Seq<Option<Track>>,
    eps: Seq<Episode>,
    n: int,
) -> Seq<Track>
    decreases n,
{
    if n <= 0 {
        Seq::empty()
    } else {
        let init = resolved(lines, local, eps, n - 1);
        match resolved_line(lines[n - 1], local[n - 1], eps) {
            Some(t) => init.push(t),
            None => init,
        }
    }
}

/// The path of `path` relative to the folder `base`, as pathdiff computes it.
pub uninterp spec fn relative_path_of(path: Seq<char>, base: Seq<char>) -> Option<Seq<char>>;

/// Relies on pathdiff::diff_utf8_paths: the result depends on the two paths
/// alone, not on the disk or the working directory.
#[verifier::external_body]
fn relative_path(path: &str, base: &str) -> (r: Option<String>)
    ensures
        text_of(r) == relative_path_of(path@, base@),
{
    pathdiff::diff_utf8_paths(path, base).map(String::from)
}

/// The M3U lines for `q`: the relative path of each track that has a file
/// and a relative path, each followed by a line break.
pub open spec fn m3u_body(q: Seq<Track>, base: Seq<char>) -> Seq<char>
    decreases q.len(),
{
    if q.len() == 0 {
        Seq::empty()
    } else {
        m3u_body(q.drop_last(), base) + match q.last().file {
            Some(f) => match relative_path_of(f@, base) {
                Some(p) => p + seq!['\n'],
                None => Seq::empty(),
            },
            None => Seq::empty(),
        }
    }
}

/// An M3U file for `q` with paths relative to `base`: the header line, then
/// one line per exported track.
pub open spec fn m3u_text(q: Seq<Track>, base: Seq<char>) -> Seq<char> {
    "#EXTM3U\n"@ + m3u_body(q, base)
}

/// `t` has a file, and that file is among `on_disk`.
pub open spec fn is_present(t: Track, on_disk: Set<Seq<char>>) -> bool {
    match t.file {
        Some(f) => on_disk.contains(f@),
        None => false,
    }
}

/// The tracks of `q` that are present (see `is_present`), in order.
pub open spec fn present_only(q: Seq<Track>, on_disk: Set<Seq<char>>) -> Seq<Track>
    decreases q.len(),
{
    if q.len() == 0 {
        q
    } else {
        let init = present_only(q.drop_last(), on_disk);
        if is_present(q.last(), on_disk) {
            init.push(q.last())
        } else {
            init
        }
    }
}

/// The texts of the strings in `v`.
pub open spec fn text_set(v: Seq<String>) -> Set<Seq<char>> {
    Set::new(|s: Seq<char>| exists|i: int| 0 <= i < v.len() && #[trigger] v[i]@ == s)
}

/// A track that the queue takes: it has a file of a supported kind.
pub open spec fn admissible(t: Track) -> bool {
    match t.file {
        Some(f) => supported(f@),
        None => false,
    }
}

/// The admissible tracks of `ts`, in order.
pub open spec fn admitted(ts: Seq<Track>) -> Seq<Track>
    decreases ts.len(),
{
    if ts.len() == 0 {
        ts
    } else {
        let init = admitted(ts.drop_last());
        if admissible(ts.last()) {
            init.push(ts.last())
        } else {
            init
        }
    }
}

/// What the player opens for `t`: the file of a music track; for a podcast
/// episode its download when `local_present` says that it is on disk, else
/// its URL; nothing for a track of no known kind.
pub open spec fn source_of(t: Track, local_present: bool) -> Option<Seq<char>> {
    match t.media_type {
        Some(MediaType::Music) => text_of(t.file),
        Some(MediaType::Podcast) => match t.podcast_localfile {
            Some(l) => if local_present {
                Some(l@)
            } else {
                text_of(t.file)
            },
            None => text_of(t.file),
        },
        None => None,
    }
}

/// Relies on std::path::Path::exists: whether something is at `p` on disk at
/// the time of the call. Nothing is promised of the answer.
#[verifier::external_body]
fn file_exists(p: &str) -> bool {
    std::path::Path::new(p).exists()
}

/// Relies on rand's SliceRandom::shuffle, with the thread-local generator: it
/// only swaps items, so the same tracks come back in some order.
#[verifier::external_body]
fn shuffle_tracks(q: &mut VecDeque<Track>)
    ensures
        final(q)@.to_multiset() == old(q)@.to_multiset(),
{
    q.make_contiguous().shuffle(&mut rand::thread_rng());
}

fn copy_string(s: &String) -> (r: String)
    ensures
        r == *s,
{
    s.clone()
}

/// What the player should open for `t`, given whether its podcast download
/// is on disk (see `source_of`).
pub fn playable_source(t: &Track, local_present: bool) -> (r: Option<String>)
    ensures
        text_of(r) == source_of(*t, local_present),
{
    match t.media_type {
        Some(MediaType::Music) => match &t.file {
            Some(f) => Some(copy_string(f)),
            None => None,
        },
        Some(MediaType::Podcast) => {
            if local_present {
                if let Some(l) = &t.podcast_localfile {
                    return Some(copy_string(l));
                }
            }
            match &t.file {
                Some(f) => Some(copy_string(f)),
                None => None,
            }
        },
        None => None,
    }
}

/// Whether some string of `v` reads `s`.
fn text_among(v: &Vec<String>, s: &str) -> (r: bool)
    ensures
        r == text_set(v@).contains(s@),
{
    let mut i: usize = 0;
    while i < v.len()
        invariant
            i <= v@.len(),
            forall|j: int| 0 <= j < i ==> v@[j]@ != s@,
        decreases v@.len() - i,
    {
        if same_text(v[i].as_str(), s) {
            assert(v@[i as int]@ == s@);
            return true;
        }
        i = i + 1;
    }
    false
}

/// The episode of `eps` whose URL is `url`, the first if several are.
fn find_episode<'a>(eps: &'a Vec<Episode>, url: &str) -> (r: Option<&'a Episode>)
    ensures
        match r {
            Some(e) => first_episode(eps@, url@) == Some(*e),
            None => first_episode(eps@, url@) is None,
        },
{
    let mut i: usize = 0;
    assert(eps@.subrange(0, eps@.len() as int) == eps@);
    while i < eps.len()
        invariant
            i <= eps@.len(),
            first_episode(eps@, url@) == first_episode(eps@.subrange(i as int, eps@.len() as int), url@),
        decreases eps@.len() - i,
    {
        let ghost rest = eps@.subrange(i as int, eps@.len() as int);
        assert(rest.drop_first() == eps@.subrange(i + 1, eps@.len() as int));
        if same_text(eps[i].url.as_str(), url) {
            return Some(&eps[i]);
        }
        i = i + 1;
    }
    assert(eps@.subrange(i as int, eps@.len() as int).len() == 0);
    None
}

/// The play queue.
pub struct Playlist {
    tracks: VecDeque<Track>,
    current_track: Option<Track>,
    next_track: Option<Track>,
    next_track_duration: u64,
    status: Status,
    loop_mode: Loop,
    add_playlist_front: bool,
}

impl Playlist {
    /// The tracks to come, the next one first.
    pub closed spec fn queue(&self) -> Seq<Track> {
        self.tracks@
    }

    /// The track that plays now.
    pub closed spec fn current(&self) -> Option<Track> {
        self.current_track
    }

    /// The track handed to the player ahead of time for a gapless change.
    pub closed spec fn preloaded(&self) -> Option<Track> {
        self.next_track
    }

    pub closed spec fn preloaded_duration(&self) -> u64 {
        self.next_track_duration
    }

    pub closed spec fn state(&self) -> Status {
        self.status
    }

    pub closed spec fn mode(&self) -> Loop {
        self.loop_mode
    }

    /// New tracks go to the front of the queue, not its back.
    pub closed spec fn adds_front(&self) -> bool {
        self.add_playlist_front
    }

    /// `self` and `o` differ at most in the queue and the current track.
    pub open spec fn same_settings(&self, o: &Playlist) -> bool {
        &&& self.preloaded() == o.preloaded()
        &&& self.preloaded_duration() == o.preloaded_duration()
        &&& self.state() == o.state()
        &&& self.mode() == o.mode()
        &&& self.adds_front() == o.adds_front()
    }

    /// `self` and `o` differ at most in the queue.
    pub open spec fn same_but_queue(&self, o: &Playlist) -> bool {
        self.same_settings(o) && self.current() == o.current()
    }

    /// A playlist over `loaded`, the tracks read back from the playlist log:
    /// the first becomes the current track and the rest the queue. It starts
    /// stopped, with the loop mode and the insertion side of `config`.
    pub fn new(config: &Settings, loaded: VecDeque<Track>) -> (r: Playlist)
        ensures
            r.current() == head_of(loaded@),
            r.queue() == tail_of(loaded@),
            r.preloaded() is None,
            r.preloaded_duration() == 0,
            r.state() == Status::Stopped,
            r.mode() == config.loop_mode,
            r.adds_front() == config.add_playlist_front,
    {
        let mut tracks = loaded;
        let current_track = tracks.pop_front();
        Playlist {
            tracks,
            current_track,
            next_track: None,
            next_track_duration: 0,
            status: Status::Stopped,
            loop_mode: config.loop_mode,
            add_playlist_front: config.add_playlist_front,
        }
    }

    /// Replaces the current track and the queue by `loaded`, read back from
    /// the playlist log, as `new` does.
    pub fn reload(&mut self, loaded: VecDeque<Track>)
        ensures
            final(self).current() == head_of(loaded@),
            final(self).queue() == tail_of(loaded@),
            final(self).same_settings(old(self)),
    {
        let mut tracks = loaded;
        let current_track = tracks.pop_front();
        self.tracks = tracks;
        self.current_track = current_track;
    }

    /// Reads the playlist log back: `lines` are its lines, `local[i]` is the
    /// track read from the local file that line `i` names, where that worked,
    /// and `episodes` are the known podcast episodes (see `resolved`).
    pub fn load(lines: &Vec<String>, local: &Vec<Option<Track>>, episodes: &Vec<Episode>) -> (r:
        VecDeque<Track>)
        requires
            local@.len() == lines@.len(),
        ensures
            r@ == resolved(
                lines@.map_values(|l: String| l@),
                local@,
                episodes@,
                lines@.len() as int,
            ),
    {
        let ghost ls = lines@.map_values(|l: String| l@);
        let mut out: VecDeque<Track> = VecDeque::new();
        let mut i: usize = 0;
        while i < lines.len()
            invariant
                i <= lines@.len(),
                local@.len() == lines@.len(),
                ls == lines@.map_values(|l: String| l@),
                out@ == resolved(ls, local@, episodes@, i as int),
            decreases lines@.len() - i,
        {
            assert(ls[i as int] == lines@[i as int]@);
            match &local[i] {
                Some(t) => {
                    out.push_back(t.duplicate());
                },
                None => {
                    if crate::text::starts_with(lines[i].as_str(), "http") {
                        if let Some(ep) = find_episode(episodes, lines[i].as_str()) {
                            out.push_back(Track::from_episode(ep));
                        }
                    }
                },
            }
            i = i + 1;
        }
        out
    }

    /// The playlist log: the file of the current track, then of each queued
    /// track, one per line; a track without a file is left out.
    pub fn log_text(&self) -> (r: String)
        ensures
            r@ == joined_lines(log_entries(saved_tracks(self.current(), self.queue()))),
    {
        let ghost all = saved_tracks(self.current_track, self.tracks@);
        let mut out = String::new();
        let ghost offset: int = 0;
        assert(log_entries(Seq::<Track>::empty()) == Seq::<Seq<char>>::empty());
        assert(joined_lines(Seq::<Seq<char>>::empty()) == Seq::<char>::empty());
        if let Some(track) = &self.current_track {
            let ghost one = all.subrange(0, 1);
            assert(one.drop_last() == Seq::<Track>::empty());
            assert(one.last() == *track);
            if let Some(f) = as_text(&track.file) {
                push_line(&mut out, f);
                assert(log_entries(one) == Seq::<Seq<char>>::empty().push(f@));
                assert(seq![f@].drop_last() == Seq::<Seq<char>>::empty());
                assert(Seq::<Seq<char>>::empty().push(f@) == seq![f@]);
                assert(out@ == Seq::<char>::empty() + f@ + seq!['\n']);
            } else {
                assert(log_entries(one) == Seq::<Seq<char>>::empty());
            }
            proof {
                offset = 1;
            }
        }
        assert(all.subrange(0, 0) == Seq::<Track>::empty());
        let mut i: usize = 0;
        while i < self.tracks.len()
            invariant
                i <= self.tracks@.len(),
                all == saved_tracks(self.current_track, self.tracks@),
                offset == if self.current_track is Some { 1int } else { 0 },
                out@ == joined_lines(log_entries(all.subrange(0, offset + i))),
            decreases self.tracks@.len() - i,
        {
            let ghost before = log_entries(all.subrange(0, offset + i));
            assert(all.subrange(0, offset + i + 1).drop_last() == all.subrange(0, offset + i));
            assert(all[offset + i] == self.tracks@[i as int]);
            if let Some(f) = as_text(&self.tracks[i].file) {
                push_line(&mut out, f);
                assert(before.push(f@).drop_last() == before);
            }
            i = i + 1;
        }
        assert(all.subrange(0, offset + i) == all);
        out
    }

    pub fn len(&self) -> (r: usize)
        ensures
            r == self.queue().len(),
    {
        self.tracks.len()
    }

    pub fn is_empty(&self) -> (r: bool)
        ensures
            r == (self.queue().len() == 0),
    {
        self.tracks.len() == 0
    }

    /// Moves the track at `index` one place towards the back; nothing happens
    /// at the last place or past the end.
    pub fn swap_down(&mut self, index: usize)
        ensures
            final(self).queue() == if index + 1 < old(self).queue().len() {
                swapped(old(self).queue(), index as int, index + 1)
            } else {
                old(self).queue()
            },
            final(self).same_but_queue(old(self)),
    {
        if index < self.tracks.len() && index + 1 < self.tracks.len() {
            let ghost q = self.tracks@;
            if let Some(track) = self.tracks.remove(index) {
                self.tracks.insert(index + 1, track);
                assert(self.tracks@ =~= swapped(q, index as int, index + 1));
            }
        }
    }

    /// Moves the track at `index` one place towards the front; nothing happens
    /// at the first place or past the end.
    pub fn swap_up(&mut self, index: usize)
        ensures
            final(self).queue() == if 0 < index < old(self).queue().len() {
                swapped(old(self).queue(), index - 1, index as int)
            } else {
                old(self).queue()
            },
            final(self).same_but_queue(old(self)),
    {
        if index > 0 {
            let ghost q = self.tracks@;
            if let Some(track) = self.tracks.remove(index) {
                self.tracks.insert(index - 1, track);
                assert(self.tracks@ =~= swapped(q, index - 1, index as int));
            }
        }
    }

    /// The track that plays after the current one.
    pub fn fetch_next_track(&self) -> (r: Option<&Track>)
        ensures
            match r {
                Some(t) => head_of(self.queue()) == Some(*t),
                None => head_of(self.queue()) is None,
            },
    {
        if self.tracks.len() > 0 {
            Some(&self.tracks[0])
        } else {
            None
        }
    }

    pub fn set_status(&mut self, status: Status)
        ensures
            final(self).state() == status,
            final(self).queue() == old(self).queue(),
            final(self).current() == old(self).current(),
            final(self).preloaded() == old(self).preloaded(),
            final(self).preloaded_duration() == old(self).preloaded_duration(),
            final(self).mode() == old(self).mode(),
            final(self).adds_front() == old(self).adds_front(),
    {
        self.status = status;
    }

    pub fn is_stopped(&self) -> (r: bool)
        ensures
            r == (self.state() == Status::Stopped),
    {
        self.status == Status::Stopped
    }

    pub fn is_paused(&self) -> (r: bool)
        ensures
            r == (self.state() == Status::Paused),
    {
        self.status == Status::Paused
    }

    pub fn status(&self) -> (r: Status)
        ensures
            r == self.state(),
    {
        self.status
    }

    /// Moves on once the current track has finished: the first queued track
    /// becomes current, and the finished one is queued again as the loop mode
    /// says. With nothing queued, no track is current and the playlist stops.
    pub fn handle_current_track(&mut self)
        ensures
            final(self).current() == head_of(old(self).queue()),
            final(self).queue() == requeued(
                old(self).mode(),
                old(self).current(),
                tail_of(old(self).queue()),
            ),
            final(self).state() == if old(self).queue().len() == 0 {
                Status::Stopped
            } else {
                old(self).state()
            },
            final(self).preloaded() == old(self).preloaded(),
            final(self).preloaded_duration() == old(self).preloaded_duration(),
            final(self).mode() == old(self).mode(),
            final(self).adds_front() == old(self).adds_front(),
    {
        let finished = self.current_track.take();
        match self.tracks.pop_front() {
            Some(song) => {
                self.current_track = Some(song);
            },
            None => {
                self.current_track = None;
                self.status = Status::Stopped;
            },
        }
        if let Some(song) = finished {
            match self.loop_mode {
                Loop::Single => self.tracks.push_front(song),
                Loop::Playlist => self.tracks.push_back(song),
                Loop::Queue => {},
            }
        }
    }

    /// Switches to the next loop mode (see `next_mode`) and returns it. Entering
    /// Single moves the last queued track to the front and entering Queue moves
    /// the first to the back, so that the change neither repeats nor skips one.
    pub fn cycle_loop_mode(&mut self) -> (r: Loop)
        ensures
            r == next_mode(old(self).mode()),
            final(self).mode() == r,
            final(self).queue() == cycled_queue(old(self).mode(), old(self).queue()),
            final(self).current() == old(self).current(),
            final(self).preloaded() == old(self).preloaded(),
            final(self).preloaded_duration() == old(self).preloaded_duration(),
            final(self).state() == old(self).state(),
            final(self).adds_front() == old(self).adds_front(),
    {
        match self.loop_mode {
            Loop::Queue => {
                self.loop_mode = Loop::Playlist;
            },
            Loop::Playlist => {
                self.loop_mode = Loop::Single;
                if let Some(song) = self.tracks.pop_back() {
                    self.tracks.push_front(song);
                }
            },
            Loop::Single => {
                self.loop_mode = Loop::Queue;
                if let Some(song) = self.tracks.pop_front() {
                    self.tracks.push_back(song);
                }
            },
        }
        self.loop_mode
    }

    /// Switches to `loop_mode` as if cycling into it from the mode before it.
    pub fn set_loop_mode(&mut self, loop_mode: Loop) -> (r: Loop)
        ensures
            r == loop_mode,
            final(self).mode() == loop_mode,
            final(self).queue() == cycled_queue(prev_mode(loop_mode), old(self).queue()),
            final(self).current() == old(self).current(),
            final(self).preloaded() == old(self).preloaded(),
            final(self).preloaded_duration() == old(self).preloaded_duration(),
            final(self).state() == old(self).state(),
            final(self).adds_front() == old(self).adds_front(),
    {
        self.loop_mode = match loop_mode {
            Loop::Single => Loop::Playlist,
            Loop::Playlist => Loop::Queue,
            Loop::Queue => Loop::Single,
        };
        self.cycle_loop_mode();
        self.loop_mode
    }

    pub fn get_loop_mode(&self) -> (r: Loop)
        ensures
            r == self.mode(),
    {
        self.loop_mode
    }

    /// Flips the side of the queue that new tracks go to, and returns the new
    /// setting.
    pub fn toggle_add_front(&mut self) -> (r: bool)
        ensures
            r == !old(self).adds_front(),
            final(self).adds_front() == r,
            final(self).queue() == old(self).queue(),
            final(self).current() == old(self).current(),
            final(self).preloaded() == old(self).preloaded(),
            final(self).preloaded_duration() == old(self).preloaded_duration(),
            final(self).state() == old(self).state(),
            final(self).mode() == old(self).mode(),
    {
        self.add_playlist_front = !self.add_playlist_front;
        self.add_playlist_front
    }

    /// Queues podcast episode `ep`, at the side that the insertion setting
    /// picks.
    pub fn add_episode(&mut self, ep: &Episode)
        ensures
            final(self).queue() == if old(self).adds_front() {
                seq![episode_track(*ep)] + old(self).queue()
            } else {
                old(self).queue().push(episode_track(*ep))
            },
            final(self).same_but_queue(old(self)),
    {
        let track = Track::from_episode(ep);
        if self.add_playlist_front {
            self.tracks.push_front(track);
            return;
        }
        self.tracks.push_back(track);
    }

    pub fn tracks(&self) -> (r: &VecDeque<Track>)
        ensures
            r@ == self.queue(),
    {
        &self.tracks
    }

    /// Takes the track at `index` out of the queue; past the end nothing
    /// happens.
    pub fn remove(&mut self, index: usize) -> (r: Option<Track>)
        ensures
            index < old(self).queue().len() ==> r == Some(old(self).queue()[index as int])
                && final(self).queue() == old(self).queue().remove(index as int),
            index >= old(self).queue().len() ==> r is None && final(self).queue() == old(
                self,
            ).queue(),
            final(self).same_but_queue(old(self)),
    {
        self.tracks.remove(index)
    }

    /// Empties the queue; the current track stays.
    pub fn clear(&mut self)
        ensures
            final(self).queue() == Seq::<Track>::empty(),
            final(self).same_but_queue(old(self)),
    {
        self.tracks.clear();
    }

    /// Queues a copy of `track` at the front.
    pub fn push_front(&mut self, track: &Track)
        ensures
            final(self).queue() == seq![*track] + old(self).queue(),
            final(self).same_but_queue(old(self)),
    {
        self.tracks.push_front(track.duplicate());
    }

    /// Steps back: the last two queued tracks, the ones played most recently
    /// in Playlist mode, move to the front, so the one before the current
    /// track plays next.
    pub fn handle_previous(&mut self)
        ensures
            final(self).queue() == back_to_front(back_to_front(old(self).queue())),
            final(self).same_but_queue(old(self)),
    {
        if let Some(song) = self.tracks.pop_back() {
            self.tracks.push_front(song);
        }
        if let Some(song) = self.tracks.pop_back() {
            self.tracks.push_front(song);
        }
    }

    pub fn current_track(&self) -> (r: Option<&Track>)
        ensures
            match r {
                Some(t) => self.current() == Some(*t),
                None => self.current() is None,
            },
    {
        self.current_track.as_ref()
    }

    pub fn current_track_as_mut(&mut self) -> (r: Option<&mut Track>)
        ensures
            match r {
                Some(t) => old(self).current() == Some(*t) && final(self).current() == Some(
                    *final(t),
                ),
                None => old(self).current() is None && final(self).current() is None,
            },
            final(self).queue() == old(self).queue(),
            final(self).same_settings(old(self)),
    {
        self.current_track.as_mut()
    }

    pub fn set_current_track(&mut self, track: Option<&Track>)
        ensures
            final(self).current() == match track {
                Some(t) => Some(*t),
                None => None,
            },
            final(self).queue() == old(self).queue(),
            final(self).same_settings(old(self)),
    {
        match track {
            Some(t) => self.current_track = Some(t.duplicate()),
            None => self.current_track = None,
        }
    }

    pub fn next_track(&self) -> (r: Option<&Track>)
        ensures
            match r {
                Some(t) => self.preloaded() == Some(*t),
                None => self.preloaded() is None,
            },
    {
        self.next_track.as_ref()
    }

    pub fn set_next_track(&mut self, track: Option<&Track>)
        ensures
            final(self).preloaded() == match track {
                Some(t) => Some(*t),
                None => None,
            },
            final(self).queue() == old(self).queue(),
            final(self).current() == old(self).current(),
            final(self).preloaded_duration() == old(self).preloaded_duration(),
            final(self).state() == old(self).state(),
            final(self).mode() == old(self).mode(),
            final(self).adds_front() == old(self).adds_front(),
    {
        match track {
            Some(t) => self.next_track = Some(t.duplicate()),
            None => self.next_track = None,
        }
    }

    pub fn has_next_track(&self) -> (r: bool)
        ensures
            r == self.preloaded() is Some,
    {
        self.next_track.is_some()
    }

    /// Length in seconds of the preloaded track.
    pub fn next_track_duration(&self) -> (r: u64)
        ensures
            r == self.preloaded_duration(),
    {
        self.next_track_duration
    }

    pub fn set_next_track_duration(&mut self, d: u64)
        ensures
            final(self).preloaded_duration() == d,
            final(self).queue() == old(self).queue(),
            final(self).current() == old(self).current(),
            final(self).preloaded() == old(self).preloaded(),
            final(self).state() == old(self).state(),
            final(self).mode() == old(self).mode(),
            final(self).adds_front() == old(self).adds_front(),
    {
        self.next_track_duration = d;
    }

    /// The M3U text for the queue, with paths relative to `parent_folder`.
    pub fn get_m3u_file(&self, parent_folder: &str) -> (r: String)
        ensures
            r@ == m3u_text(self.queue(), parent_folder@),
    {
        let mut m3u = String::from_str("#EXTM3U\n");
        let mut i: usize = 0;
        assert(self.tracks@.subrange(0, 0) == Seq::<Track>::empty());
        while i < self.tracks.len()
            invariant
                i <= self.tracks@.len(),
                m3u@ == m3u_text(self.tracks@.subrange(0, i as int), parent_folder@),
            decreases self.tracks@.len() - i,
        {
            let ghost q = self.tracks@.subrange(0, i + 1);
            assert(q.drop_last() == self.tracks@.subrange(0, i as int));
            assert(q.last() == self.tracks@[i as int]);
            if let Some(file) = as_text(&self.tracks[i].file) {
                if let Some(p) = relative_path(file, parent_folder) {
                    push_line(&mut m3u, p.as_str());
                }
            }
            i = i + 1;
        }
        assert(self.tracks@.subrange(0, i as int) == self.tracks@);
        m3u
    }

    /// The M3U export of the queue for a file at `filename`, paths relative
    /// to the folder that will hold it. An empty queue is refused, so the
    /// caller writes no file.
    pub fn save_m3u(&self, filename: &str) -> (r: Result<String, PlaylistError>)
        ensures
            self.queue().len() == 0 <==> r == Err::<String, PlaylistError>(
                PlaylistError::NothingToSave,
            ),
            r matches Ok(t) ==> t@ == m3u_text(self.queue(), parent_of(filename@)),
    {
        if self.tracks.len() == 0 {
            return Err(PlaylistError::NothingToSave);
        }
        let parent = parent_folder(filename);
        Ok(self.get_m3u_file(parent.as_str()))
    }

    /// Queues the admissible tracks of `items` (see `admitted`) in order, at
    /// the side that the insertion setting picks, and returns how many.
    pub fn add_playlist(&mut self, items: &Vec<Track>) -> (r: usize)
        ensures
            r == admitted(items@).len(),
            final(self).queue() == if old(self).adds_front() {
                admitted(items@) + old(self).queue()
            } else {
                old(self).queue() + admitted(items@)
            },
            final(self).same_but_queue(old(self)),
    {
        let mut kept: VecDeque<Track> = VecDeque::new();
        let mut i: usize = 0;
        assert(items@.subrange(0, 0) == Seq::<Track>::empty());
        while i < items.len()
            invariant
                i <= items@.len(),
                kept@ == admitted(items@.subrange(0, i as int)),
            decreases items@.len() - i,
        {
            let ghost q = items@.subrange(0, i + 1);
            assert(q.drop_last() == items@.subrange(0, i as int));
            assert(q.last() == items@[i as int]);
            let ok = match &items[i].file {
                Some(f) => filetype_supported(f.as_str()),
                None => false,
            };
            if ok {
                kept.push_back(items[i].duplicate());
            }
            i = i + 1;
        }
        assert(items@.subrange(0, i as int) == items@);
        let n = kept.len();
        if self.add_playlist_front {
            kept.append(&mut self.tracks);
            self.tracks = kept;
        } else {
            self.tracks.append(&mut kept);
        }
        n
    }

    /// Drops the queued tracks whose file is not among `existing`, the files
    /// known to be on disk (see `present_only`).
    pub fn remove_missing(&mut self, existing: &Vec<String>)
        ensures
            final(self).queue() == present_only(old(self).queue(), text_set(existing@)),
            final(self).same_but_queue(old(self)),
    {
        let ghost on_disk = text_set(existing@);
        let mut kept: VecDeque<Track> = VecDeque::new();
        let mut i: usize = 0;
        assert(self.tracks@.subrange(0, 0) == Seq::<Track>::empty());
        while i < self.tracks.len()
            invariant
                i <= self.tracks@.len(),
                on_disk == text_set(existing@),
                kept@ == present_only(self.tracks@.subrange(0, i as int), on_disk),
            decreases self.tracks@.len() - i,
        {
            let ghost q = self.tracks@.subrange(0, i + 1);
            assert(q.drop_last() == self.tracks@.subrange(0, i as int));
            assert(q.last() == self.tracks@[i as int]);
            let present = match &self.tracks[i].file {
                Some(f) => text_among(existing, f.as_str()),
                None => false,
            };
            if present {
                kept.push_back(self.tracks[i].duplicate());
            }
            i = i + 1;
        }
        assert(self.tracks@.subrange(0, i as int) == self.tracks@);
        self.tracks = kept;
    }

    /// Drops the queued tracks whose file is no longer on disk. Which files
    /// are there is up to the disk: the queue keeps exactly the tracks whose
    /// file is among some set of files.
    pub fn remove_deleted_items(&mut self)
        ensures
            exists|on_disk: Set<Seq<char>>|
                final(self).queue() == present_only(old(self).queue(), on_disk),
            final(self).same_but_queue(old(self)),
    {
        let mut existing: Vec<String> = Vec::new();
        let mut i: usize = 0;
        while i < self.tracks.len()
            invariant
                i <= self.tracks@.len(),
            decreases self.tracks@.len() - i,
        {
            if let Some(f) = &self.tracks[i].file {
                if file_exists(f.as_str()) {
                    existing.push(copy_string(f));
                }
            }
            i = i + 1;
        }
        self.remove_missing(&existing);
    }

    /// Puts the queue in a random order; the current track stays.
    pub fn shuffle(&mut self)
        ensures
            final(self).queue().to_multiset() == old(self).queue().to_multiset(),
            final(self).queue().len() == old(self).queue().len(),
            final(self).same_but_queue(old(self)),
    {
        shuffle_tracks(&mut self.tracks);
        proof {
            old(self).tracks@.to_multiset_ensures();
            self.tracks@.to_multiset_ensures();
        }
    }

    /// What the player should open for the current track; for a downloaded
    /// podcast episode that depends on whether the download is still on disk.
    pub fn get_current_track(&self) -> (r: Option<String>)
        ensures
            match self.current() {
                None => r is None,
                Some(t) => exists|b: bool| text_of(r) == source_of(t, b),
            },
    {
        match &self.current_track {
            None => None,
            Some(t) => {
                let present = match &t.podcast_localfile {
                    Some(l) => file_exists(l.as_str()),
                    None => false,
                };
                playable_source(t, present)
            },
        }
    }
}

} // verus!
