use vstd::prelude::*;

verus! {

/// Media Foundation session event codes, as the platform delivers them
/// (the `MESession*` values of the `MF_EVENT_TYPE` enumeration, plus
/// `MEError`). Any other code is forward-compatible noise to this
/// controller: it is classified as `Unrecognized` and must not stall the
/// pump.
pub const ME_ERROR: u32 = 1;

pub const ME_SESSION_TOPOLOGY_SET: u32 = 101;

pub const ME_SESSION_STARTED: u32 = 103;

pub const ME_SESSION_PAUSED: u32 = 104;

pub const ME_SESSION_STOPPED: u32 = 105;

pub const ME_SESSION_CLOSED: u32 = 106;

pub const ME_SESSION_TOPOLOGY_STATUS: u32 = 111;

/// What a delivered event means to the state machine.
#[derive(Clone, Copy, PartialEq, Eq, Structural, Debug)]
pub enum EventKind {
    /// The open completed: the topology is ready and playback may be started.
    Opened,
    /// A start request took effect.
    StartedConfirmed,
    /// A pause request took effect.
    PausedConfirmed,
    /// A stop request took effect.
    StoppedConfirmed,
    /// The topology was accepted by the session; no state change.
    TopologySet,
    /// An unrecoverable mid-session error: the session is treated as closed.
    SessionError,
    /// The terminal event: the session is closed and the pump must stop.
    SessionClosed,
    /// Any other event code: ignored, but the pump re-arms.
    Unrecognized,
}

/// How a raw event code is classified.
pub open spec fn classify_spec(code: u32) -> EventKind {
    if code == ME_SESSION_CLOSED {
        EventKind::SessionClosed
    } else if code == ME_ERROR {
        EventKind::SessionError
    } else if code == ME_SESSION_TOPOLOGY_STATUS {
        EventKind::Opened
    } else if code == ME_SESSION_TOPOLOGY_SET {
        EventKind::TopologySet
    } else if code == ME_SESSION_STARTED {
        EventKind::StartedConfirmed
    } else if code == ME_SESSION_PAUSED {
        EventKind::PausedConfirmed
    } else if code == ME_SESSION_STOPPED {
        EventKind::StoppedConfirmed
    } else {
        EventKind::Unrecognized
    }
}

/// Classify a raw event code.
pub fn classify(code: u32) -> (k: EventKind)
    ensures
        k == classify_spec(code),
{
    if code == ME_SESSION_CLOSED {
        EventKind::SessionClosed
    } else if code == ME_ERROR {
        EventKind::SessionError
    } else if code == ME_SESSION_TOPOLOGY_STATUS {
        EventKind::Opened
    } else if code == ME_SESSION_TOPOLOGY_SET {
        EventKind::TopologySet
    } else if code == ME_SESSION_STARTED {
        EventKind::StartedConfirmed
    } else if code == ME_SESSION_PAUSED {
        EventKind::PausedConfirmed
    } else if code == ME_SESSION_STOPPED {
        EventKind::StoppedConfirmed
    } else {
        EventKind::Unrecognized
    }
}

} // verus!
