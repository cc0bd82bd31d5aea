//! The command set between the controller and the playback engine, and how
//! an engine reply is read for each command.
use vstd::prelude::*;

use crate::playlist::Status;

verus! {

/// The highest volume the engine reports.
pub const VOLUME_MAX: u16 = 100;

/// A command that the controller sends the playback engine; each is one
/// round trip.
#[derive(Clone, Copy, Debug, PartialEq, Eq, Structural)]
pub enum PlayerRequest {
    TogglePause,
    SkipNext,
    SkipPrevious,
    GetProgress,
    VolumeUp,
    VolumeDown,
    SpeedUp,
    SpeedDown,
    ToggleGapless,
    SeekForward,
    SeekBackward,
    CycleLoop,
    ReloadConfig,
    ReloadPlaylist,
    PlaySelected,
}

/// The fields of an engine reply as they come over the wire; each command
/// reads the ones it needs. Times are whole seconds.
#[derive(Clone, Copy, Debug, PartialEq, Eq, Structural)]
pub struct WireReply {
    pub status: u32,
    pub volume: u32,
    pub speed: i32,
    pub gapless: bool,
    pub position: u64,
    pub total_duration: u64,
    pub current_track_index: u64,
}

/// Where playback stands: position and length of the current track, in
/// seconds, and its place in the queue.
#[derive(Clone, Copy, Debug, PartialEq, Eq, Structural)]
pub struct PlayerProgress {
    pub position: u64,
    pub total_duration: u64,
    pub current_track_index: u64,
}

/// What a command returns: exactly the data its caller needs.
#[derive(Clone, Copy, Debug, PartialEq, Eq, Structural)]
pub enum PlayerResponse {
    Status(Status),
    Ack,
    Progress(PlayerProgress),
    Volume(u16),
    Speed(i32),
    Gapless(bool),
}

/// A round trip that did not complete.
#[derive(Clone, Copy, Debug, PartialEq, Eq, Structural)]
pub enum ProtocolError {
    Transport,
}

/// The status that wire code `n` stands for: 0 running, 2 paused, any other
/// stopped.
pub open spec fn status_of(n: u32) -> Status {
    if n == 0 {
        Status::Running
    } else if n == 2 {
        Status::Paused
    } else {
        Status::Stopped
    }
}

/// The volume that wire value `v` stands for, saturated at `VOLUME_MAX`.
pub open spec fn volume_of(v: u32) -> u16 {
    if v > VOLUME_MAX as u32 {
        VOLUME_MAX
    } else {
        v as u16
    }
}

/// The progress fields of `w`.
pub open spec fn progress_of(w: WireReply) -> PlayerProgress {
    PlayerProgress {
        position: w.position,
        total_duration: w.total_duration,
        current_track_index: w.current_track_index,
    }
}

/// What the reply `w` to `req` says.
pub open spec fn response_of(req: PlayerRequest, w: WireReply) -> PlayerResponse {
    match req {
        PlayerRequest::TogglePause => PlayerResponse::Status(status_of(w.status)),
        PlayerRequest::GetProgress => PlayerResponse::Progress(progress_of(w)),
        PlayerRequest::SeekForward => PlayerResponse::Progress(progress_of(w)),
        PlayerRequest::SeekBackward => PlayerResponse::Progress(progress_of(w)),
        PlayerRequest::VolumeUp => PlayerResponse::Volume(volume_of(w.volume)),
        PlayerRequest::VolumeDown => PlayerResponse::Volume(volume_of(w.volume)),
        PlayerRequest::SpeedUp => PlayerResponse::Speed(w.speed),
        PlayerRequest::SpeedDown => PlayerResponse::Speed(w.speed),
        PlayerRequest::ToggleGapless => PlayerResponse::Gapless(w.gapless),
        _ => PlayerResponse::Ack,
    }
}

impl Status {
    /// The status that wire code `n` stands for (see `status_of`).
    pub fn from_u32(n: u32) -> (r: Status)
        ensures
            r == status_of(n),
    {
        if n == 0 {
            Status::Running
        } else if n == 2 {
            Status::Paused
        } else {
            Status::Stopped
        }
    }
}

/// The volume that wire value `v` stands for; never above `VOLUME_MAX`.
pub fn volume_from_wire(v: u32) -> (r: u16)
    ensures
        r == volume_of(v),
        r <= VOLUME_MAX,
{
    if v > VOLUME_MAX as u32 {
        VOLUME_MAX
    } else {
        v as u16
    }
}

/// Reads the reply `w` to `req` (see `response_of`).
pub fn decode_reply(req: PlayerRequest, w: &WireReply) -> (r: PlayerResponse)
    ensures
        r == response_of(req, *w),
{
    let progress = PlayerProgress {
        position: w.position,
        total_duration: w.total_duration,
        current_track_index: w.current_track_index,
    };
    match req {
        PlayerRequest::TogglePause => PlayerResponse::Status(Status::from_u32(w.status)),
        PlayerRequest::GetProgress => PlayerResponse::Progress(progress),
        PlayerRequest::SeekForward => PlayerResponse::Progress(progress),
        PlayerRequest::SeekBackward => PlayerResponse::Progress(progress),
        PlayerRequest::VolumeUp => PlayerResponse::Volume(volume_from_wire(w.volume)),
        PlayerRequest::VolumeDown => PlayerResponse::Volume(volume_from_wire(w.volume)),
        PlayerRequest::SpeedUp => PlayerResponse::Speed(w.speed),
        PlayerRequest::SpeedDown => PlayerResponse::Speed(w.speed),
        PlayerRequest::ToggleGapless => PlayerResponse::Gapless(w.gapless),
        _ => PlayerResponse::Ack,
    }
}

/// The outcome of one round trip: the decoded reply, or the transport error
/// passed on as it is, never read as a reply.
pub fn settle_round_trip(req: PlayerRequest, outcome: Result<WireReply, ProtocolError>) -> (r:
    Result<PlayerResponse, ProtocolError>)
    ensures
        match outcome {
            Ok(w) => r == Ok::<PlayerResponse, ProtocolError>(response_of(req, w)),
            Err(e) => r == Err::<PlayerResponse, ProtocolError>(e),
        },
{
    match outcome {
        Ok(w) => Ok(decode_reply(req, &w)),
        Err(e) => Err(e),
    }
}

} // verus!
