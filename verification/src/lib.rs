//! A verified controller for an asynchronous media-playback session.
//!
//! The platform's media pipeline delivers lifecycle events (opened, started,
//! paused, stopped, closed, error) on its own worker threads. The controller
//! here owns the explicit playback state machine and the re-arming event
//! pump: every delivered event is classified, applied to the state, and —
//! unless it was the terminal session-closed event — answered with exactly
//! one new "request next event" registration. The platform adapter itself
//! (session creation, source resolution, the actual event retrieval) is
//! unverified glue around this crate; the controller tells that glue which
//! adapter call to make and the glue hands back the raw event code.

use vstd::prelude::*;

mod state;
mod event;
mod controller;
mod laws;

pub use state::PlayerState;
pub use event::EventKind;
pub use event::classify;
pub use event::classify_spec;
pub use event::ME_ERROR;
pub use event::ME_SESSION_TOPOLOGY_SET;
pub use event::ME_SESSION_STARTED;
pub use event::ME_SESSION_PAUSED;
pub use event::ME_SESSION_STOPPED;
pub use event::ME_SESSION_CLOSED;
pub use event::ME_SESSION_TOPOLOGY_STATUS;
pub use controller::MediaSourceHandle;
pub use controller::AdapterRequest;
pub use controller::ControlError;
pub use controller::InvokeOutcome;
pub use controller::Player;
pub use controller::open_step;
pub use controller::close_step;
pub use controller::event_step;
pub use controller::rearms;
pub use laws::Cmd;
pub use laws::ctrl_step;
pub use laws::run;
pub use laws::table_allows;
pub use laws::lemma_step_follows_table;
pub use laws::lemma_run_follows_table;
pub use laws::lemma_started_only_by_confirmation;
pub use laws::lemma_close_idempotent;
pub use laws::lemma_rearm_exactly_on_nonterminal;

verus! {

/// Start a playback session: construct the controller for a fresh, unopened
/// session. The returned request (the initial "request next event"
/// registration) must be issued against the adapter before any event can be
/// delivered; if the adapter refuses it, the controller must be discarded
/// unused, so that no callback registration is leaked.
pub fn play_music() -> (r: (Player, AdapterRequest))
    ensures
        r.0.state_spec() == PlayerState::Ready,
        r.0.registered(),
        r.1 == AdapterRequest::RequestNextEvent,
{
    Player::new()
}

} // verus!
