//! The controller side of playback: it owns the play queue, keeps the
//! playback engine in step with it, and decides what to tell the engine when
//! something happens.
use std::collections::VecDeque;
use vstd::prelude::*;

use crate::config::Settings;
use crate::playlist::{
    admitted, head_of, requeued, tail_of, Playlist, PlaylistError, Status,
};
use crate::sampling::{random_album_pick, random_track_pick};
use crate::track::{episode_track, Episode, Track};
use crate::track_db::{Indexable, TrackDB};

verus! {

/// A podcast feed and its episodes, as the podcast store lists them.
#[derive(Clone, Debug)]
pub struct Podcast {
    pub title: String,
    pub episodes: Vec<Episode>,
}

/// Where a playback session stands.
#[derive(Clone, Copy, Debug, PartialEq, Eq, Structural)]
pub enum SessionState {
    Idle,
    Playing,
    Paused,
    Stopped,
}

/// Something that happened, which the controller reacts to.
#[derive(Clone, Copy, Debug, PartialEq, Eq, Structural)]
pub enum EngineEvent {
    /// The user asked for playback to begin.
    Start,
    /// The engine finished the current track.
    TrackFinished,
    /// The user paused or resumed.
    PauseToggled,
    /// The current track is close to its end: time to hand over the next.
    NearTrackEnd,
    /// A round trip to the engine failed.
    TransportFailed,
}

/// What the controller asks of the engine.
#[derive(Debug)]
pub enum EngineAction {
    /// Play this track now.
    Play(Track),
    /// Open this track ahead of time, to follow the current one without a gap.
    Preload(Track),
    Pause,
    Resume,
    Stop,
    /// Skip to the next track.
    SkipNext,
    /// Go back one track.
    SkipPrevious,
    /// Take over the controller's queue again; it changed.
    SyncQueue,
}

/// A command from the playlist view.
#[derive(Clone, Debug)]
pub enum PLMsg {
    AddFront,
    NextSong,
    PrevSong,
    PlaylistTableBlurDown,
    PlaylistTableBlurUp,
    /// Add the file, folder or playlist file at this path.
    Add(String),
    Delete(usize),
    DeleteAll,
    LoopModeCycle,
    PlaySelected(usize),
    Shuffle,
    SwapDown(usize),
    SwapUp(usize),
    /// Add a random album from the index.
    CmusLQueue,
    /// Add random tracks from the index.
    CmusTQueue,
}

/// `q` with the track at `i` moved to the front.
pub open spec fn moved_to_front(q: Seq<Track>, i: int) -> Seq<Track> {
    seq![q[i]] + q.remove(i)
}

/// Why a controller operation failed.
#[derive(Clone, Copy, Debug, PartialEq, Eq, Structural)]
pub enum ModelError {
    /// The selected podcast is not in the list.
    PodcastNotFound,
    /// The selected episode is not in the podcast.
    EpisodeNotFound,
}

/// The controller's state for playback.
pub struct Model {
    pub playlist: Playlist,
    pub podcasts: Vec<Podcast>,
    /// The podcast selected in the podcast list.
    pub podcasts_index: usize,
    pub random_track_quantity: u32,
    pub random_album_quantity: u32,
    /// Whether the next track is handed to the engine before the current one
    /// ends.
    pub gapless: bool,
    pub state: SessionState,
    /// Requests for the engine not sent yet, oldest first.
    pub actions: Vec<EngineAction>,
}

impl Model {
    pub open spec fn session(&self) -> SessionState {
        self.state
    }

    /// The requests for the engine that have not been sent yet, oldest first.
    pub open spec fn pending(&self) -> Seq<EngineAction> {
        self.actions@
    }

    /// `self` and `o` agree on everything but the playlist and the requests.
    pub open spec fn same_context(&self, o: &Model) -> bool {
        &&& self.podcasts == o.podcasts
        &&& self.podcasts_index == o.podcasts_index
        &&& self.random_track_quantity == o.random_track_quantity
        &&& self.random_album_quantity == o.random_album_quantity
        &&& self.gapless == o.gapless
        &&& self.session() == o.session()
    }

    /// After a change of the queue: one more request to re-sync the engine.
    pub open spec fn synced_after(&self, o: &Model) -> bool {
        &&& self.same_context(o)
        &&& self.pending() == o.pending().push(EngineAction::SyncQueue)
        &&& self.playlist.same_but_queue(&o.playlist)
    }

    /// After queuing `items` (see `Model::playlist_add`): one more re-sync
    /// request exactly when some track was admitted.
    pub open spec fn resynced_for(&self, o: &Model, items: Seq<Track>) -> bool {
        &&& self.same_context(o)
        &&& self.playlist.same_but_queue(&o.playlist)
        &&& self.pending() == if admitted(items).len() > 0 {
            o.pending().push(EngineAction::SyncQueue)
        } else {
            o.pending()
        }
    }

    /// `self` is `o` with the tracks of index records `picked` queued (see
    /// `Model::playlist_add_all_from_db`).
    pub open spec fn queued_records(&self, o: &Model, picked: Seq<TrackDB>) -> bool {
        exists|items: Seq<Track>|
            {
                &&& self.resynced_for(o, items)
                &&& items.len() == picked.len()
                &&& forall|i: int|
                    0 <= i < items.len() ==> (#[trigger] items[i]).file_text()
                        == picked[i].file_text()
                &&& self.playlist.queue() == if o.playlist.adds_front() {
                    admitted(items) + o.playlist.queue()
                } else {
                    o.playlist.queue() + admitted(items)
                }
            }
    }

    /// A controller over the queue read back from the playlist log, with the
    /// counts and the gapless setting of `config`; nothing is playing yet.
    pub fn new(config: &Settings, loaded: VecDeque<Track>, podcasts: Vec<Podcast>) -> (r: Model)
        ensures
            r.playlist.current() == head_of(loaded@),
            r.playlist.queue() == tail_of(loaded@),
            r.playlist.mode() == config.loop_mode,
            r.playlist.adds_front() == config.add_playlist_front,
            r.podcasts == podcasts,
            r.podcasts_index == 0,
            r.random_track_quantity == config.playlist_select_random_track_quantity,
            r.random_album_quantity == config.playlist_select_random_album_quantity,
            r.gapless == config.gapless,
            r.session() == SessionState::Idle,
            r.pending() == Seq::<EngineAction>::empty(),
    {
        Model {
            playlist: Playlist::new(config, loaded),
            podcasts,
            podcasts_index: 0,
            random_track_quantity: config.playlist_select_random_track_quantity,
            random_album_quantity: config.playlist_select_random_album_quantity,
            gapless: config.gapless,
            state: SessionState::Idle,
            actions: Vec::new(),
        }
    }

    /// Hands over the requests not sent yet, oldest first, and forgets them.
    pub fn take_actions(&mut self) -> (r: Vec<EngineAction>)
        ensures
            r@ == old(self).pending(),
            final(self).pending() == Seq::<EngineAction>::empty(),
            final(self).same_context(old(self)),
            final(self).playlist == old(self).playlist,
    {
        let mut out: Vec<EngineAction> = Vec::new();
        core::mem::swap(&mut out, &mut self.actions);
        out
    }

    fn player_sync_playlist(&mut self)
        ensures
            final(self).pending() == old(self).pending().push(EngineAction::SyncQueue),
            final(self).same_context(old(self)),
            final(self).playlist == old(self).playlist,
    {
        self.actions.push(EngineAction::SyncQueue);
    }

    /// Queues episode `episode_index` of the selected podcast. With no
    /// podcasts nothing happens; a selection past the end of either list is an
    /// error and changes nothing.
    pub fn playlist_add_episode(&mut self, episode_index: usize) -> (r: Result<(), ModelError>)
        ensures
            old(self).podcasts@.len() == 0 ==> r is Ok && *final(self) == *old(self),
            old(self).podcasts@.len() > 0 && old(self).podcasts_index >= old(self).podcasts@.len()
                ==> r == Err::<(), ModelError>(ModelError::PodcastNotFound) && *final(self) == *old(
                self,
            ),
            old(self).podcasts_index < old(self).podcasts@.len() ==> {
                let eps = old(self).podcasts@[old(self).podcasts_index as int].episodes@;
                &&& episode_index >= eps.len() ==> r == Err::<(), ModelError>(
                    ModelError::EpisodeNotFound,
                ) && *final(self) == *old(self)
                &&& episode_index < eps.len() ==> {
                    let t = episode_track(eps[episode_index as int]);
                    &&& r is Ok
                    &&& final(self).synced_after(old(self))
                    &&& final(self).playlist.queue() == if old(self).playlist.adds_front() {
                        seq![t] + old(self).playlist.queue()
                    } else {
                        old(self).playlist.queue().push(t)
                    }
                }
            },
    {
        if self.podcasts.len() == 0 {
            return Ok(());
        }
        if self.podcasts_index >= self.podcasts.len() {
            return Err(ModelError::PodcastNotFound);
        }
        let pod = &self.podcasts[self.podcasts_index];
        if episode_index >= pod.episodes.len() {
            return Err(ModelError::EpisodeNotFound);
        }
        self.playlist.add_episode(&pod.episodes[episode_index]);
        self.player_sync_playlist();
        Ok(())
    }

    /// Queues the admissible tracks of `items`, the tracks read from the
    /// selected file, folder or playlist file; the engine is re-synced only
    /// when some track was queued.
    pub fn playlist_add(&mut self, items: &Vec<Track>)
        ensures
            final(self).playlist.queue() == if old(self).playlist.adds_front() {
                admitted(items@) + old(self).playlist.queue()
            } else {
                old(self).playlist.queue() + admitted(items@)
            },
            final(self).resynced_for(old(self), items@),
    {
        let added = self.playlist.add_playlist(items);
        if added > 0 {
            self.player_sync_playlist();
        }
    }

    /// Queues the tracks of index records `records` (see `TrackDB::to_track`).
    pub fn playlist_add_all_from_db(&mut self, records: &Vec<TrackDB>)
        ensures
            final(self).queued_records(old(self), records@),
    {
        let mut items: Vec<Track> = Vec::new();
        let mut i: usize = 0;
        while i < records.len()
            invariant
                i <= records@.len(),
                items@.len() == i,
                forall|j: int|
                    0 <= j < i ==> (#[trigger] items@[j]).file_text() == records@[j].file_text(),
            decreases records@.len() - i,
        {
            let t = records[i].to_track();
            items.push(t);
            i = i + 1;
        }
        self.playlist_add(&items);
        assert(self.queued_records(old(self), records@));
    }

    /// Queues one random album of at least the configured size, drawn from
    /// the index records `records` (see
    /// `Model::playlist_get_random_album_tracks`).
    pub fn playlist_add_random_album(&mut self, records: &Vec<TrackDB>)
        ensures
            exists|picked: Seq<TrackDB>|
                random_album_pick(records@, old(self).random_album_quantity, picked)
                    && final(self).queued_records(old(self), picked),
    {
        let vec = self.playlist_get_random_album_tracks(records, self.random_album_quantity);
        self.playlist_add_all_from_db(&vec);
        assert(random_album_pick(records@, old(self).random_album_quantity, vec@));
    }

    /// Queues the configured number of random tracks drawn from the index
    /// records `records` (see
    /// `Model::playlist_get_random_tracks`).
    pub fn playlist_add_random_tracks(&mut self, records: &Vec<TrackDB>)
        ensures
            exists|picked: Seq<TrackDB>|
                random_track_pick(records@, old(self).random_track_quantity, picked)
                    && final(self).queued_records(old(self), picked),
    {
        let vec = self.playlist_get_random_tracks(records, self.random_track_quantity);
        self.playlist_add_all_from_db(&vec);
        assert(random_track_pick(records@, old(self).random_track_quantity, vec@));
    }

    /// Takes the track at `index` out of the queue; with an empty queue
    /// nothing happens, not even a re-sync.
    pub fn playlist_delete_item(&mut self, index: usize)
        ensures
            old(self).playlist.queue().len() == 0 ==> *final(self) == *old(self),
            old(self).playlist.queue().len() > 0 ==> {
                &&& final(self).synced_after(old(self))
                &&& final(self).playlist.queue() == if index < old(self).playlist.queue().len() {
                    old(self).playlist.queue().remove(index as int)
                } else {
                    old(self).playlist.queue()
                }
            },
    {
        if self.playlist.is_empty() {
            return;
        }
        self.playlist.remove(index);
        self.player_sync_playlist();
    }

    /// Empties the queue.
    pub fn playlist_clear(&mut self)
        ensures
            final(self).playlist.queue() == Seq::<Track>::empty(),
            final(self).synced_after(old(self)),
    {
        self.playlist.clear();
        self.player_sync_playlist();
    }

    /// Puts the queue in a random order.
    pub fn playlist_shuffle(&mut self)
        ensures
            final(self).playlist.queue().to_multiset() == old(self).playlist.queue().to_multiset(),
            final(self).synced_after(old(self)),
    {
        self.playlist.shuffle();
        self.player_sync_playlist();
    }

    /// Drops the queued tracks whose file has been deleted.
    pub fn playlist_update_library_delete(&mut self)
        ensures
            exists|on_disk: Set<Seq<char>>|
                final(self).playlist.queue() == crate::playlist::present_only(
                    old(self).playlist.queue(),
                    on_disk,
                ),
            final(self).synced_after(old(self)),
    {
        self.playlist.remove_deleted_items();
        self.player_sync_playlist();
    }

    /// The M3U text to write at `filename`; refused for an empty queue.
    pub fn playlist_save_m3u(&self, filename: &str) -> (r: Result<String, PlaylistError>)
        ensures
            self.playlist.queue().len() == 0 <==> r == Err::<String, PlaylistError>(
                PlaylistError::NothingToSave,
            ),
            r matches Ok(t) ==> t@ == crate::playlist::m3u_text(
                self.playlist.queue(),
                crate::track::parent_of(filename@),
            ),
    {
        self.playlist.save_m3u(filename)
    }

    /// Reacts to `ev`; every event the engine or the user raises goes through
    /// here.
    /// - `Start`, while idle or stopped: with no current track the first
    ///   queued one becomes current; if a track is then current, the engine is
    ///   told to play it and the session plays.
    /// - `TrackFinished`: the playlist moves on (see
    ///   `Playlist::handle_current_track`) and forgets its preloaded track;
    ///   the new current track is played, or, with none, the engine is told to
    ///   stop and the session stops.
    /// - `PauseToggled`: playing and paused swap, the queue untouched.
    /// - `NearTrackEnd`, while playing with gapless on: the first queued track
    ///   is preloaded and handed to the engine.
    /// - `TransportFailed`: nothing changes; the next event works from the
    ///   state as it was.
    /// Any other case changes nothing.
    pub fn reconcile(&mut self, ev: EngineEvent)
        ensures
            final(self).podcasts == old(self).podcasts,
            final(self).gapless == old(self).gapless,
            ev == EngineEvent::Start ==> {
                let was = old(self).playlist;
                if old(self).session() == SessionState::Playing || old(self).session()
                    == SessionState::Paused {
                    *final(self) == *old(self)
                } else {
                    let cur = if was.current() is None {
                        head_of(was.queue())
                    } else {
                        was.current()
                    };
                    &&& final(self).playlist.current() == cur
                    &&& final(self).playlist.queue() == if was.current() is None {
                        tail_of(was.queue())
                    } else {
                        was.queue()
                    }
                    &&& match cur {
                        Some(t) => {
                            &&& final(self).session() == SessionState::Playing
                            &&& final(self).playlist.state() == Status::Running
                            &&& final(self).pending() == old(self).pending().push(
                                EngineAction::Play(t),
                            )
                        },
                        None => {
                            &&& final(self).session() == old(self).session()
                            &&& final(self).pending() == old(self).pending()
                        },
                    }
                }
            },
            ev == EngineEvent::TrackFinished ==> {
                let was = old(self).playlist;
                &&& final(self).playlist.current() == head_of(was.queue())
                &&& final(self).playlist.queue() == requeued(
                    was.mode(),
                    was.current(),
                    tail_of(was.queue()),
                )
                &&& final(self).playlist.preloaded() is None
                &&& match head_of(was.queue()) {
                    Some(t) => {
                        &&& final(self).session() == SessionState::Playing
                        &&& final(self).playlist.state() == Status::Running
                        &&& final(self).pending() == old(self).pending().push(
                            EngineAction::Play(t),
                        )
                    },
                    None => {
                        &&& final(self).session() == SessionState::Stopped
                        &&& final(self).playlist.state() == Status::Stopped
                        &&& final(self).pending() == old(self).pending().push(EngineAction::Stop)
                    },
                }
            },
            ev == EngineEvent::PauseToggled ==> {
                &&& final(self).playlist.queue() == old(self).playlist.queue()
                &&& final(self).playlist.current() == old(self).playlist.current()
                &&& if old(self).session() == SessionState::Playing {
                    &&& final(self).session() == SessionState::Paused
                    &&& final(self).playlist.state() == Status::Paused
                    &&& final(self).pending() == old(self).pending().push(EngineAction::Pause)
                } else if old(self).session() == SessionState::Paused {
                    &&& final(self).session() == SessionState::Playing
                    &&& final(self).playlist.state() == Status::Running
                    &&& final(self).pending() == old(self).pending().push(EngineAction::Resume)
                } else {
                    *final(self) == *old(self)
                }
            },
            ev == EngineEvent::NearTrackEnd ==> if old(self).gapless && old(self).session()
                == SessionState::Playing && old(self).playlist.queue().len() > 0 {
                let t = old(self).playlist.queue()[0];
                &&& final(self).playlist.preloaded() == Some(t)
                &&& final(self).playlist.queue() == old(self).playlist.queue()
                &&& final(self).playlist.current() == old(self).playlist.current()
                &&& final(self).session() == old(self).session()
                &&& final(self).pending() == old(self).pending().push(EngineAction::Preload(t))
            } else {
                *final(self) == *old(self)
            },
            ev == EngineEvent::TransportFailed ==> *final(self) == *old(self),
    {
        match ev {
            EngineEvent::Start => {
                if self.state == SessionState::Playing || self.state == SessionState::Paused {
                    return;
                }
                if self.playlist.current_track().is_none() && !self.playlist.is_empty() {
                    self.playlist.handle_current_track();
                }
                match self.playlist.current_track() {
                    Some(t) => {
                        let t = t.duplicate();
                        self.actions.push(EngineAction::Play(t));
                        self.playlist.set_status(Status::Running);
                        self.state = SessionState::Playing;
                    },
                    None => {},
                }
            },
            EngineEvent::TrackFinished => {
                self.playlist.handle_current_track();
                self.playlist.set_next_track(None);
                match self.playlist.current_track() {
                    Some(t) => {
                        let t = t.duplicate();
                        self.actions.push(EngineAction::Play(t));
                        self.playlist.set_status(Status::Running);
                        self.state = SessionState::Playing;
                    },
                    None => {
                        self.actions.push(EngineAction::Stop);
                        self.state = SessionState::Stopped;
                    },
                }
            },
            EngineEvent::PauseToggled => {
                if self.state == SessionState::Playing {
                    self.actions.push(EngineAction::Pause);
                    self.playlist.set_status(Status::Paused);
                    self.state = SessionState::Paused;
                } else if self.state == SessionState::Paused {
                    self.actions.push(EngineAction::Resume);
                    self.playlist.set_status(Status::Running);
                    self.state = SessionState::Playing;
                }
            },
            EngineEvent::NearTrackEnd => {
                if self.gapless && self.state == SessionState::Playing {
                    if let Some(t) = self.playlist.fetch_next_track() {
                        let t = t.duplicate();
                        self.playlist.set_next_track(Some(&t));
                        self.actions.push(EngineAction::Preload(t));
                    }
                }
            },
            EngineEvent::TransportFailed => {},
        }
    }

    /// Plays the queued track at `index` now: it moves to the front and the
    /// playlist moves on as if the current track had finished. Past the end
    /// of the queue nothing happens.
    pub fn playlist_play_selected(&mut self, index: usize)
        ensures
            final(self).podcasts == old(self).podcasts,
            final(self).gapless == old(self).gapless,
            index >= old(self).playlist.queue().len() ==> *final(self) == *old(self),
            index < old(self).playlist.queue().len() ==> {
                let q = moved_to_front(old(self).playlist.queue(), index as int);
                let t = old(self).playlist.queue()[index as int];
                &&& final(self).playlist.current() == Some(t)
                &&& final(self).playlist.queue() == requeued(
                    old(self).playlist.mode(),
                    old(self).playlist.current(),
                    tail_of(q),
                )
                &&& final(self).session() == SessionState::Playing
                &&& final(self).pending() == old(self).pending().push(EngineAction::SyncQueue).push(
                    EngineAction::Play(t),
                )
            },
    {
        if index >= self.playlist.len() {
            return;
        }
        if let Some(t) = self.playlist.remove(index) {
            self.playlist.push_front(&t);
            self.player_sync_playlist();
            self.reconcile(EngineEvent::TrackFinished);
        }
    }

    /// Carries out a command of the playlist view. Returns false for the
    /// commands that need the disk, the index or the screen (`Add`, the two
    /// random additions and the focus moves), which the caller carries out,
    /// and leaves everything as it was for them.
    /// - `AddFront` flips the insertion side.
    /// - `NextSong` and `PrevSong` ask the engine to skip.
    /// - `Delete`, `DeleteAll`, `Shuffle`, `PlaySelected` as the functions of
    ///   those names.
    /// - `LoopModeCycle` cycles the loop mode (see
    ///   `Playlist::cycle_loop_mode`), `SwapDown` and `SwapUp` move a track;
    ///   each then re-syncs the engine.
    pub fn update_playlist(&mut self, msg: &PLMsg) -> (r: bool)
        ensures
            r == !(msg is Add || msg is CmusLQueue || msg is CmusTQueue
                || msg is PlaylistTableBlurDown || msg is PlaylistTableBlurUp),
            !r ==> *final(self) == *old(self),
            final(self).podcasts == old(self).podcasts,
            final(self).gapless == old(self).gapless,
            msg is AddFront ==> {
                &&& final(self).playlist.adds_front() == !old(self).playlist.adds_front()
                &&& final(self).playlist.queue() == old(self).playlist.queue()
                &&& final(self).pending() == old(self).pending()
            },
            msg is NextSong ==> final(self).pending() == old(self).pending().push(
                EngineAction::SkipNext,
            ) && final(self).playlist == old(self).playlist,
            msg is PrevSong ==> final(self).pending() == old(self).pending().push(
                EngineAction::SkipPrevious,
            ) && final(self).playlist == old(self).playlist,
            msg is DeleteAll ==> final(self).playlist.queue() == Seq::<Track>::empty()
                && final(self).synced_after(old(self)),
            msg is LoopModeCycle ==> {
                &&& final(self).playlist.mode() == crate::playlist::next_mode(
                    old(self).playlist.mode(),
                )
                &&& final(self).playlist.queue() == crate::playlist::cycled_queue(
                    old(self).playlist.mode(),
                    old(self).playlist.queue(),
                )
                &&& final(self).pending() == old(self).pending().push(EngineAction::SyncQueue)
            },
            msg is Shuffle ==> final(self).playlist.queue().to_multiset() == old(
                self,
            ).playlist.queue().to_multiset() && final(self).synced_after(old(self)),
            *msg matches PLMsg::Delete(i) ==> if old(self).playlist.queue().len() == 0 {
                *final(self) == *old(self)
            } else {
                &&& final(self).synced_after(old(self))
                &&& final(self).playlist.queue() == if i < old(self).playlist.queue().len() {
                    old(self).playlist.queue().remove(i as int)
                } else {
                    old(self).playlist.queue()
                }
            },
            *msg matches PLMsg::SwapDown(i) ==> {
                &&& final(self).synced_after(old(self))
                &&& final(self).playlist.queue() == if i + 1 < old(self).playlist.queue().len() {
                    crate::playlist::swapped(old(self).playlist.queue(), i as int, i + 1)
                } else {
                    old(self).playlist.queue()
                }
            },
            *msg matches PLMsg::SwapUp(i) ==> {
                &&& final(self).synced_after(old(self))
                &&& final(self).playlist.queue() == if 0 < i < old(self).playlist.queue().len() {
                    crate::playlist::swapped(old(self).playlist.queue(), i - 1, i as int)
                } else {
                    old(self).playlist.queue()
                }
            },
            *msg matches PLMsg::PlaySelected(i) ==> if i < old(self).playlist.queue().len() {
                let t = old(self).playlist.queue()[i as int];
                &&& final(self).playlist.current() == Some(t)
                &&& final(self).session() == SessionState::Playing
                &&& final(self).pending() == old(self).pending().push(EngineAction::SyncQueue).push(
                    EngineAction::Play(t),
                )
            } else {
                *final(self) == *old(self)
            },
    {
        match msg {
            PLMsg::AddFront => {
                self.playlist.toggle_add_front();
                true
            },
            PLMsg::NextSong => {
                self.actions.push(EngineAction::SkipNext);
                true
            },
            PLMsg::PrevSong => {
                self.actions.push(EngineAction::SkipPrevious);
                true
            },
            PLMsg::Delete(i) => {
                self.playlist_delete_item(*i);
                true
            },
            PLMsg::DeleteAll => {
                self.playlist_clear();
                true
            },
            PLMsg::LoopModeCycle => {
                self.playlist.cycle_loop_mode();
                self.player_sync_playlist();
                true
            },
            PLMsg::PlaySelected(i) => {
                self.playlist_play_selected(*i);
                true
            },
            PLMsg::Shuffle => {
                self.playlist_shuffle();
                true
            },
            PLMsg::SwapDown(i) => {
                self.playlist.swap_down(*i);
                self.player_sync_playlist();
                true
            },
            PLMsg::SwapUp(i) => {
                self.playlist.swap_up(*i);
                self.player_sync_playlist();
                true
            },
            _ => false,
        }
    }
}

} // verus!
