use vstd::prelude::*;
use crate::state::PlayerState;
use crate::event::EventKind;
use crate::event::classify_spec;
use crate::event::ME_SESSION_CLOSED;
use crate::controller::open_step;
use crate::controller::close_step;
use crate::controller::event_step;
use crate::controller::rearms;

verus! {

/// One step of the whole machine, as seen from outside: a control call or a
/// delivered event. `Open` carries whether the source resolution succeeded.
#[derive(Clone, Copy, PartialEq, Eq, Structural, Debug)]
pub enum Cmd {
    Open(bool),
    Play,
    Pause,
    Stop,
    Close,
    Deliver(EventKind),
}

/// The state after one step. `play`, `pause` and `stop` only request
/// transitions, so they never move the state themselves.
pub open spec fn ctrl_step(s: PlayerState, c: Cmd) -> PlayerState {
    match c {
        Cmd::Open(resolved) => open_step(s, resolved),
        Cmd::Play => s,
        Cmd::Pause => s,
        Cmd::Stop => s,
        Cmd::Close => close_step(s),
        Cmd::Deliver(k) => event_step(s, k),
    }
}

/// The state after a whole sequence of steps.
pub open spec fn run(s0: PlayerState, cmds: Seq<Cmd>) -> PlayerState
    decreases cmds.len(),
{
    if cmds.len() == 0 {
        s0
    } else {
        ctrl_step(run(s0, cmds.drop_last()), cmds.last())
    }
}

/// The transitions the design allows, as pairs of old and new state:
/// staying put; an accepted open; the four confirmations, each only from a
/// state in which its request can be in flight; an accepted close request;
/// and the fail-safe jump to `Closed` (error or session-closed, from any
/// state).
pub open spec fn table_allows(pre: PlayerState, post: PlayerState) -> bool {
    ||| post == pre
    ||| (pre.open_allowed() && post == PlayerState::OpenPending)
    ||| (pre == PlayerState::OpenPending && post == PlayerState::Stopped)
    ||| (pre.play_allowed() && post == PlayerState::Started)
    ||| (pre.pause_allowed() && post == PlayerState::Paused)
    ||| (pre.stop_allowed() && post == PlayerState::Stopped)
    ||| (!pre.close_is_noop() && post == PlayerState::Closing)
    ||| post == PlayerState::Closed
}

/// Every single step — any control call, any delivered event, in any state
/// — moves the state only along a transition the table allows.
pub proof fn lemma_step_follows_table(s: PlayerState, c: Cmd)
    ensures
        table_allows(s, ctrl_step(s, c)),
{
}

/// Over any sequence of control calls and delivered events, every state the
/// machine passes through is reached from its predecessor by a transition
/// the table allows: no state is ever occupied that the table cannot reach.
pub proof fn lemma_run_follows_table(s0: PlayerState, cmds: Seq<Cmd>, i: int)
    requires
        0 <= i < cmds.len(),
    ensures
        table_allows(run(s0, cmds.take(i)), run(s0, cmds.take(i + 1))),
    decreases cmds.len(),
{
    let prefix = cmds.take(i + 1);
    assert(prefix.drop_last() =~= cmds.take(i));
    lemma_step_follows_table(run(s0, cmds.take(i)), prefix.last());
}

/// `Started` is entered only by a started confirmation delivered while a
/// start request can be in flight (`Stopped` or `Paused`). In particular no
/// single step moves `Ready` (or `Closed`) straight to `Started`: playback
/// begins only after an open, its opened confirmation, a play request, and
/// the started confirmation.
pub proof fn lemma_started_only_by_confirmation(s: PlayerState, c: Cmd)
    ensures
        ctrl_step(s, c) == PlayerState::Started ==> s == PlayerState::Started || (s.play_allowed()
            && c == Cmd::Deliver(EventKind::StartedConfirmed)),
{
}

/// Closing is idempotent: after any close call the state is one in which a
/// further close is a no-op, so the second of two close calls asks the
/// adapter for nothing — two `close` calls produce at most one session
/// close request, and the state settles after the first.
pub proof fn lemma_close_idempotent(s: PlayerState)
    ensures
        close_step(s).close_is_noop(),
        close_step(close_step(s)) == close_step(s),
{
}

/// The pump re-arms exactly once for every event except session-closed, and
/// session-closed is recognized from the raw code alone: the one raw event
/// code after which no further event request is issued — and after which
/// the controller holds no callback registration, so it may be released —
/// is the session-closed code.
pub proof fn lemma_rearm_exactly_on_nonterminal(code: u32)
    ensures
        rearms(classify_spec(code)) <==> code != ME_SESSION_CLOSED,
        classify_spec(code) == EventKind::SessionClosed <==> code == ME_SESSION_CLOSED,
{
}

} // verus!
