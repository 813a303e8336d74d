use vstd::prelude::*;
use crate::state::PlayerState;
use crate::event::EventKind;
use crate::event::classify;
use crate::event::classify_spec;

verus! {

/// A resolved media source, as this controller sees it: an opaque token the
/// source-resolution step produced. It is consumed exactly once, by the
/// topology-build request, and is owned by the adapter thereafter.
#[derive(Clone, Copy, PartialEq, Eq, Structural, Debug)]
pub struct MediaSourceHandle {
    pub token: u64,
}

/// A call the controller asks the surrounding adapter glue to make against
/// the platform session. Every `AdapterRequest` a controller method returns
/// is an obligation: the caller must issue exactly that call before handing
/// the controller any further event.
#[derive(Clone, Copy, PartialEq, Eq, Structural, Debug)]
pub enum AdapterRequest {
    /// Register the controller for the next session event.
    RequestNextEvent,
    /// Build the default playback topology from the source and queue it.
    QueueTopology(MediaSourceHandle),
    /// Start playback.
    Start,
    /// Pause playback.
    Pause,
    /// Stop playback.
    Stop,
    /// Close the session.
    CloseSession,
}

/// Why a control call was rejected. Neither error is fatal to the
/// controller: its state is unchanged.
#[derive(Clone, Copy, PartialEq, Eq, Structural, Debug)]
pub enum ControlError {
    /// The call was issued in a state that does not allow it.
    InvalidState,
    /// The URL could not be resolved into a media source.
    ResolutionFailed,
}

/// What one callback invocation decided.
#[derive(Clone, Copy, PartialEq, Eq, Structural, Debug)]
pub enum InvokeOutcome {
    /// A non-terminal event was applied and the controller re-armed itself:
    /// one new "request next event" registration now stands.
    ReArmed,
    /// The terminal session-closed event arrived; the pump is finished and
    /// no registration remains.
    Terminated,
    /// The completed event could not be retrieved: the adapter and the
    /// controller have desynchronized. The pump is aborted for this session
    /// and no registration remains.
    Fatal,
}

/// The state after an `open` call: `OpenPending` when the call is accepted
/// and the source resolved, unchanged otherwise (a rejected call leaves no
/// trace; a failed resolution is rolled back).
pub open spec fn open_step(s: PlayerState, resolved: bool) -> PlayerState {
    if s.open_allowed() && resolved {
        PlayerState::OpenPending
    } else {
        s
    }
}

/// The state after a `close` call: unchanged where closing is already
/// settled or in flight, `Closing` otherwise. The flip to the terminal
/// `Closed` happens only when the session-closed event arrives.
pub open spec fn close_step(s: PlayerState) -> PlayerState {
    if s.close_is_noop() {
        s
    } else {
        PlayerState::Closing
    }
}

/// The transition table of the event callback. Confirmations apply only in
/// the states from which the corresponding request can be in flight — the
/// adapter confirms transitions, it never initiates them — while the
/// session-closed and error events close the session from any state
/// (fail-safe), and unrecognized events change nothing.
pub open spec fn event_step(s: PlayerState, k: EventKind) -> PlayerState {
    match k {
        EventKind::SessionClosed => PlayerState::Closed,
        EventKind::SessionError => PlayerState::Closed,
        EventKind::Opened => if s == PlayerState::OpenPending {
            PlayerState::Stopped
        } else {
            s
        },
        EventKind::StartedConfirmed => if s.play_allowed() {
            PlayerState::Started
        } else {
            s
        },
        EventKind::PausedConfirmed => if s.pause_allowed() {
            PlayerState::Paused
        } else {
            s
        },
        EventKind::StoppedConfirmed => if s.stop_allowed() {
            PlayerState::Stopped
        } else {
            s
        },
        EventKind::TopologySet => s,
        EventKind::Unrecognized => s,
    }
}

/// Whether the pump re-arms after delivering this event: every event but
/// the terminal session-closed one is answered with exactly one new event
/// request.
pub open spec fn rearms(k: EventKind) -> bool {
    k != EventKind::SessionClosed
}

/// The session controller: the sole owner of the playback state machine.
///
/// It never touches the platform itself. Each control call checks its
/// precondition, advances the state, and returns the adapter call the
/// surrounding glue must make; each delivered event comes back in through
/// `invoke`, which applies the transition table and decides whether to
/// re-arm. `registered()` tracks the one callback registration that may be
/// outstanding at any instant, on the assumption — stated on every returned
/// request — that the caller performs the requests it is handed.
pub struct Player {
    state: PlayerState,
    registration_outstanding: bool,
}

impl Player {
    /// The current state of the playback state machine.
    pub closed spec fn state_spec(&self) -> PlayerState {
        self.state
    }

    /// Whether a "request next event" registration is outstanding: the
    /// adapter holds a callback reference into this controller and will
    /// invoke it once more.
    pub closed spec fn registered(&self) -> bool {
        self.registration_outstanding
    }

    /// Construct the controller for a fresh, unopened session and issue the
    /// first event request. On success exactly one registration is
    /// outstanding; if the adapter refuses the returned request, the caller
    /// must discard the controller unused, so no registration leaks.
    pub fn new() -> (r: (Player, AdapterRequest))
        ensures
            r.0.state_spec() == PlayerState::Ready,
            r.0.registered(),
            r.1 == AdapterRequest::RequestNextEvent,
    {
        let player = Player {
            state: PlayerState::Ready,
            registration_outstanding: true,
        };
        (player, AdapterRequest::RequestNextEvent)
    }

    /// The current state, for the observer layer.
    pub fn current_state(&self) -> (s: PlayerState)
        ensures
            s == self.state_spec(),
    {
        self.state
    }

    /// Open a media source: accepted only while `Ready` or `Closed`. The
    /// caller resolves the URL first and passes the outcome; on a failed
    /// resolution the open attempt is abandoned and the state is left as it
    /// was. On success the state becomes `OpenPending` and the source must
    /// be handed to the adapter as a queued topology; playback starts only
    /// once the opened confirmation arrives and `play` is called.
    pub fn open(&mut self, source: Option<MediaSourceHandle>) -> (r: Result<
        AdapterRequest,
        ControlError,
    >)
        ensures
            final(self).state_spec() == open_step(old(self).state_spec(), source is Some),
            final(self).registered() == old(self).registered(),
            !old(self).state_spec().open_allowed() ==> r == Err::<AdapterRequest, ControlError>(
                ControlError::InvalidState,
            ),
            old(self).state_spec().open_allowed() && source is None ==> r == Err::<
                AdapterRequest,
                ControlError,
            >(ControlError::ResolutionFailed),
            old(self).state_spec().open_allowed() ==> (source matches Some(h) ==> r == Ok::<
                AdapterRequest,
                ControlError,
            >(AdapterRequest::QueueTopology(h))),
    {
        if !(self.state == PlayerState::Ready || self.state == PlayerState::Closed) {
            return Err(ControlError::InvalidState);
        }
        match source {
            None => Err(ControlError::ResolutionFailed),
            Some(h) => {
                self.state = PlayerState::OpenPending;
                Ok(AdapterRequest::QueueTopology(h))
            },
        }
    }

    /// Request that playback start. Accepted only where a start can be in
    /// flight (`Stopped` or `Paused`); the state itself moves to `Started`
    /// only when the started confirmation arrives through `invoke`.
    pub fn play(&mut self) -> (r: Result<AdapterRequest, ControlError>)
        ensures
            final(self).state_spec() == old(self).state_spec(),
            final(self).registered() == old(self).registered(),
            old(self).state_spec().play_allowed() ==> r == Ok::<AdapterRequest, ControlError>(
                AdapterRequest::Start,
            ),
            !old(self).state_spec().play_allowed() ==> r == Err::<AdapterRequest, ControlError>(
                ControlError::InvalidState,
            ),
    {
        if self.state == PlayerState::Stopped || self.state == PlayerState::Paused {
            Ok(AdapterRequest::Start)
        } else {
            Err(ControlError::InvalidState)
        }
    }

    /// Request that playback pause. Accepted only while `Started`; the
    /// state moves to `Paused` only on the paused confirmation.
    pub fn pause(&mut self) -> (r: Result<AdapterRequest, ControlError>)
        ensures
            final(self).state_spec() == old(self).state_spec(),
            final(self).registered() == old(self).registered(),
            old(self).state_spec().pause_allowed() ==> r == Ok::<AdapterRequest, ControlError>(
                AdapterRequest::Pause,
            ),
            !old(self).state_spec().pause_allowed() ==> r == Err::<AdapterRequest, ControlError>(
                ControlError::InvalidState,
            ),
    {
        if self.state == PlayerState::Started {
            Ok(AdapterRequest::Pause)
        } else {
            Err(ControlError::InvalidState)
        }
    }

    /// Request that playback stop. Accepted while `Started` or `Paused`;
    /// the state moves to `Stopped` only on the stopped confirmation.
    pub fn stop(&mut self) -> (r: Result<AdapterRequest, ControlError>)
        ensures
            final(self).state_spec() == old(self).state_spec(),
            final(self).registered() == old(self).registered(),
            old(self).state_spec().stop_allowed() ==> r == Ok::<AdapterRequest, ControlError>(
                AdapterRequest::Stop,
            ),
            !old(self).state_spec().stop_allowed() ==> r == Err::<AdapterRequest, ControlError>(
                ControlError::InvalidState,
            ),
    {
        if self.state == PlayerState::Started || self.state == PlayerState::Paused {
            Ok(AdapterRequest::Stop)
        } else {
            Err(ControlError::InvalidState)
        }
    }

    /// Close the session. Idempotent: the first call from any state that is
    /// not already closed or closing moves to `Closing` and asks the adapter
    /// for one session close; any further call is a no-op and asks for
    /// nothing. The flip to the terminal `Closed` happens only when the
    /// session-closed event arrives through `invoke`.
    pub fn close(&mut self) -> (r: Option<AdapterRequest>)
        ensures
            final(self).state_spec() == close_step(old(self).state_spec()),
            final(self).registered() == old(self).registered(),
            old(self).state_spec().close_is_noop() ==> r == None::<AdapterRequest>,
            !old(self).state_spec().close_is_noop() ==> r == Some(AdapterRequest::CloseSession),
    {
        if self.state == PlayerState::Closed || self.state == PlayerState::Closing {
            None
        } else {
            self.state = PlayerState::Closing;
            Some(AdapterRequest::CloseSession)
        }
    }

    /// The event callback: the adapter invokes this once per completed
    /// event request, handing over the retrieved raw event code, or `None`
    /// where retrieval itself failed.
    ///
    /// The invocation consumes the outstanding registration. A retrieval
    /// failure is a protocol desynchronization: the pump is aborted, the
    /// state is left untouched, and nothing is re-armed. Otherwise the event
    /// is classified and applied to the state, and — unless it was the
    /// terminal session-closed event — the controller re-arms itself:
    /// `ReArmed` obliges the caller to issue exactly one new
    /// `RequestNextEvent` against the adapter.
    pub fn invoke(&mut self, retrieved: Option<u32>) -> (r: InvokeOutcome)
        requires
            old(self).registered(),
        ensures
            retrieved matches Some(code) ==> final(self).state_spec() == event_step(
                old(self).state_spec(),
                classify_spec(code),
            ),
            retrieved matches Some(code) ==> final(self).registered() == rearms(
                classify_spec(code),
            ),
            retrieved matches Some(code) ==> r == (if rearms(classify_spec(code)) {
                InvokeOutcome::ReArmed
            } else {
                InvokeOutcome::Terminated
            }),
            retrieved is None ==> final(self).state_spec() == old(self).state_spec()
                && !final(self).registered() && r == InvokeOutcome::Fatal,
    {
        self.registration_outstanding = false;
        let code = match retrieved {
            None => {
                return InvokeOutcome::Fatal;
            },
            Some(code) => code,
        };
        let kind = classify(code);
        self.state = match kind {
            EventKind::SessionClosed => PlayerState::Closed,
            EventKind::SessionError => PlayerState::Closed,
            EventKind::Opened => if self.state == PlayerState::OpenPending {
                PlayerState::Stopped
            } else {
                self.state
            },
            EventKind::StartedConfirmed => if self.state == PlayerState::Stopped || self.state
                == PlayerState::Paused {
                PlayerState::Started
            } else {
                self.state
            },
            EventKind::PausedConfirmed => if self.state == PlayerState::Started {
                PlayerState::Paused
            } else {
                self.state
            },
            EventKind::StoppedConfirmed => if self.state == PlayerState::Started || self.state
                == PlayerState::Paused {
                PlayerState::Stopped
            } else {
                self.state
            },
            EventKind::TopologySet => self.state,
            EventKind::Unrecognized => self.state,
        };
        if matches!(kind, EventKind::SessionClosed) {
            InvokeOutcome::Terminated
        } else {
            self.registration_outstanding = true;
            InvokeOutcome::ReArmed
        }
    }

    /// Tear the controller down and let the caller release the session
    /// handle. Callable only once no registration is outstanding — after
    /// the terminal session-closed event, a `Fatal` retrieval failure, or a
    /// refused initial request — so that no callback can ever fire into a
    /// destroyed controller.
    pub fn release(self) -> (s: PlayerState)
        requires
            !self.registered(),
        ensures
            s == self.state_spec(),
    {
        self.state
    }
}

} // verus!
