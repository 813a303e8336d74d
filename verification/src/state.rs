use vstd::prelude::*;

verus! {

/// The playback session's control state.
///
/// Exactly one value is current at any time. It is changed only by the
/// controller's own control calls (`open`, `close`, ...) or by the event
/// callback (`invoke`); the platform adapter never writes it directly.
#[derive(Clone, Copy, PartialEq, Eq, Structural, Debug)]
pub enum PlayerState {
    /// Terminal for a session: entered on the session-closed event or on a
    /// fatal mid-session error. A new `open` may be issued from here.
    Closed,
    /// Freshly constructed; no media source has been opened yet.
    Ready,
    /// An `open` was issued and the opened confirmation has not arrived yet.
    OpenPending,
    /// Playback confirmed running.
    Started,
    /// Playback confirmed paused.
    Paused,
    /// Media opened (or playback confirmed stopped); not playing.
    Stopped,
    /// A close was requested and the session-closed confirmation is pending.
    Closing,
}

impl PlayerState {
    /// A close request is a no-op here: either the session is already closed,
    /// or a close request is already in flight.
    pub open spec fn close_is_noop(self) -> bool {
        self == PlayerState::Closed || self == PlayerState::Closing
    }

    /// `open` may only be issued before a session is opened or after the
    /// previous one has fully closed.
    pub open spec fn open_allowed(self) -> bool {
        self == PlayerState::Ready || self == PlayerState::Closed
    }

    /// A start request may be in flight: `play` is accepted here.
    pub open spec fn play_allowed(self) -> bool {
        self == PlayerState::Stopped || self == PlayerState::Paused
    }

    /// A pause request may be in flight: `pause` is accepted here.
    pub open spec fn pause_allowed(self) -> bool {
        self == PlayerState::Started
    }

    /// A stop request may be in flight: `stop` is accepted here.
    pub open spec fn stop_allowed(self) -> bool {
        self == PlayerState::Started || self == PlayerState::Paused
    }
}

} // verus!
