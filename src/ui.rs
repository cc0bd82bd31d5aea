//! The decisions of the controller's main loop: when to poll the engine for
//! progress and when to redraw.
use std::collections::VecDeque;
use vstd::prelude::*;

use crate::config::Settings;
use crate::model::{Model, Podcast, SessionState};
use crate::playlist::{head_of, tail_of};
use crate::track::Track;

verus! {

/// Passes of the main loop from one progress poll to the next.
pub const PROGRESS_POLL_TICKS: u32 = 80;

/// Milliseconds without a redraw after which the screen is redrawn anyway.
pub const FORCED_REDRAW_INTERVAL_MS: u64 = 1000;

/// The controller and its main-loop counters.
pub struct UI {
    pub model: Model,
    /// Passes of the main loop since the last progress poll.
    pub progress_interval: u32,
}

impl UI {
    /// A controller over the queue read back from the playlist log (see
    /// `Model::new`), due to poll on its first pass.
    pub fn new(config: &Settings, loaded: VecDeque<Track>, podcasts: Vec<Podcast>) -> (r: UI)
        ensures
            r.model.playlist.current() == head_of(loaded@),
            r.model.playlist.queue() == tail_of(loaded@),
            r.model.podcasts == podcasts,
            r.model.gapless == config.gapless,
            r.model.session() == SessionState::Idle,
            r.model.pending().len() == 0,
            r.progress_interval == 0,
    {
        UI { model: Model::new(config, loaded, podcasts), progress_interval: 0 }
    }

    /// One pass of the main loop: whether to poll the engine for progress on
    /// this pass. Polls come once every `PROGRESS_POLL_TICKS` passes; a poll
    /// that is late is not made up for.
    pub fn tick(&mut self) -> (r: bool)
        ensures
            r == (old(self).progress_interval == 0),
            final(self).progress_interval == if old(self).progress_interval + 1
                >= PROGRESS_POLL_TICKS {
                0
            } else {
                old(self).progress_interval + 1
            },
            final(self).model == old(self).model,
    {
        let due = self.progress_interval == 0;
        if self.progress_interval >= PROGRESS_POLL_TICKS - 1 {
            self.progress_interval = 0;
        } else {
            self.progress_interval = self.progress_interval + 1;
        }
        due
    }

    /// Whether to redraw although no message came, `since_last_redraw_ms`
    /// milliseconds after the last redraw.
    pub fn check_force_redraw(&self, since_last_redraw_ms: u64) -> (r: bool)
        ensures
            r == (since_last_redraw_ms >= FORCED_REDRAW_INTERVAL_MS),
    {
        since_last_redraw_ms >= FORCED_REDRAW_INTERVAL_MS
    }
}

} // verus!
