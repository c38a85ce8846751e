//! Cooperative cancellation for long-running states. A [`CancelToken`] is
//! a one-shot broadcast flag: once fired it stays fired, and each
//! [`CancelWaiter`] observes the firing exactly once. A state that
//! represents outstanding work races the work's completion against the
//! signal; [`Fsm::resolve_race`] decides the outcome: cancellation first
//! drives the engine to the terminal `Cancelled` state without running the
//! pending work's side effects, completion first feeds the completion
//! event through the ordinary transition path. Firing after the workflow
//! has already reached a terminal state is a no-op.

use vstd::prelude::*;
use crate::fsm::{State, Event};
use crate::engine::{Fsm, FsmError, EngineView, step_view, step_result};

verus! {

/// The states in which a workflow is finished and cancellation no longer
/// applies.
pub open spec fn is_terminal(s: State) -> bool {
    s == State::Complete || s == State::Error || s == State::Cancelled
}

/// Decides [`is_terminal`].
pub fn state_is_terminal(s: &State) -> (r: bool)
    ensures
        r == is_terminal(*s),
{
    match s {
        State::Complete => true,
        State::Error => true,
        State::Cancelled => true,
        _ => false,
    }
}

/// A one-shot cancellation signal: it starts unfired, firing is
/// idempotent, and it never reverts.
pub struct CancelToken {
    fired: bool,
}

impl View for CancelToken {
    type V = bool;

    closed spec fn view(&self) -> bool {
        self.fired
    }
}

impl CancelToken {
    /// A signal that has not fired.
    pub fn new() -> (r: CancelToken)
        ensures
            !r@,
    {
        CancelToken { fired: false }
    }

    /// Fires the signal; firing an already fired signal changes nothing.
    pub fn fire(&mut self)
        ensures
            final(self)@,
    {
        self.fired = true;
    }

    /// Whether the signal has fired.
    pub fn is_fired(&self) -> (r: bool)
        ensures
            r == self@,
    {
        self.fired
    }
}

/// One waiter on a cancellation signal; it reports the firing exactly
/// once.
pub struct CancelWaiter {
    observed: bool,
}

impl View for CancelWaiter {
    type V = bool;

    closed spec fn view(&self) -> bool {
        self.observed
    }
}

impl CancelWaiter {
    /// A waiter that has observed nothing.
    pub fn new() -> (r: CancelWaiter)
        ensures
            !r@,
    {
        CancelWaiter { observed: false }
    }

    /// Checks the signal cooperatively: reports true exactly on the first
    /// check after the signal fired, and false on every later check.
    pub fn poll(&mut self, token: &CancelToken) -> (r: bool)
        ensures
            r == (token@ && !old(self)@),
            final(self)@ == (old(self)@ || token@),
    {
        let hit = token.is_fired() && !self.observed;
        if token.is_fired() {
            self.observed = true;
        }
        hit
    }
}

impl Fsm {
    /// Cancels the workflow: from a non-terminal state the engine moves
    /// to the terminal `Cancelled` state without running guards,
    /// invariants or hooks and without touching history, log or counters;
    /// from a terminal state nothing changes.
    pub fn cancel(&mut self)
        requires
            old(self).wf(),
        ensures
            final(self).wf(),
            final(self)@ == if is_terminal(old(self)@.current) {
                old(self)@
            } else {
                EngineView { current: State::Cancelled, ..old(self)@ }
            },
    {
        if !state_is_terminal(&self.current_state()) {
            self.set_current(State::Cancelled);
        }
    }

    /// Decides the race between a unit of work completing and the
    /// cancellation signal. When cancellation won and the workflow is not
    /// yet terminal, the engine cancels and the work's completion event is
    /// discarded; otherwise the completion event goes through the
    /// ordinary transition path.
    pub fn resolve_race(&mut self, completion: Event, cancelled: bool) -> (r: Result<
        State,
        FsmError,
    >)
        requires
            old(self).wf(),
        ensures
            final(self).wf(),
            cancelled && !is_terminal(old(self)@.current) ==> {
                &&& final(self)@ == (EngineView { current: State::Cancelled, ..old(self)@ })
                &&& r matches Err(e) && e matches FsmError::Cancelled
            },
            !(cancelled && !is_terminal(old(self)@.current)) ==> {
                &&& final(self)@ == step_view(old(self)@, completion)
                &&& r == step_result(old(self)@, completion)
            },
    {
        if cancelled && !state_is_terminal(&self.current_state()) {
            self.cancel();
            Err(FsmError::Cancelled)
        } else {
            self.process_event(completion)
        }
    }
}

} // verus!
