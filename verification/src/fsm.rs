//! The workflow state space and a minimal finite-state machine over it:
//! transitions are matched in registration order on the current state and
//! the incoming event's shape (its tag, irrespective of payload). The
//! richer guarded engine lives in [`crate::engine`]; this machine is the
//! unguarded entry point.

use vstd::prelude::*;
use vstd::string::StringExecFns;
use std::time::Instant;
use core::time::Duration;
use crate::text::{dec_rep, append_decimal};

verus! {

/// `std::time::Instant` is opaque to the verifier; values of it are only
/// carried, never inspected.
#[verifier::external_type_specification]
#[verifier::external_body]
pub struct ExInstant(Instant);

/// Relies on `std::time::Instant::now`: a reading of a monotonic clock.
/// Nothing can be promised of the value, so nothing is.
pub assume_specification[ Instant::now ]() -> Instant;

/// Relies on `std::time::Instant::elapsed`: the time since the instant was
/// taken. The result depends on the clock, so nothing is promised of it.
pub assume_specification[ Instant::elapsed ](i: &Instant) -> Duration;

/// The discrete states of the workflow machines. `Composite` carries a
/// nested state value; transition matching treats all composite states as
/// one outer tag (see [`state_matches`]).
#[derive(Debug, Eq, Hash)]
pub enum State {
    Init,
    Running,
    Paused,
    Processing,
    Complete,
    Error,
    Cancelled,
    Composite(Box<State>),
}

/// Decides structural equality of two states.
fn state_eq(a: &State, b: &State) -> (r: bool)
    ensures
        r == (a == b),
    decreases *a,
{
    match (a, b) {
        (State::Init, State::Init) => true,
        (State::Running, State::Running) => true,
        (State::Paused, State::Paused) => true,
        (State::Processing, State::Processing) => true,
        (State::Complete, State::Complete) => true,
        (State::Error, State::Error) => true,
        (State::Cancelled, State::Cancelled) => true,
        (State::Composite(x), State::Composite(y)) => state_eq(&**x, &**y),
        _ => false,
    }
}

impl PartialEq for State {
    fn eq(&self, other: &State) -> (r: bool) {
        state_eq(self, other)
    }
}

impl vstd::std_specs::cmp::PartialEqSpecImpl for State {
    open spec fn obeys_eq_spec() -> bool {
        true
    }

    open spec fn eq_spec(&self, other: &State) -> bool {
        *self == *other
    }
}

fn clone_state(s: &State) -> (r: State)
    ensures
        r == *s,
    decreases *s,
{
    match s {
        State::Init => State::Init,
        State::Running => State::Running,
        State::Paused => State::Paused,
        State::Processing => State::Processing,
        State::Complete => State::Complete,
        State::Error => State::Error,
        State::Cancelled => State::Cancelled,
        State::Composite(x) => State::Composite(Box::new(clone_state(&**x))),
    }
}

impl Clone for State {
    fn clone(&self) -> (r: State)
        ensures
            r == *self,
    {
        clone_state(self)
    }
}

/// Holds when state `s` answers to the table pattern `pattern`: composite
/// states match on the outer tag only; every other pattern matches by
/// equality.
pub open spec fn state_matches(pattern: State, s: State) -> bool {
    match (pattern, s) {
        (State::Composite(_), State::Composite(_)) => true,
        (p, q) => p == q,
    }
}

/// Decides [`state_matches`].
pub fn state_matches_exec(pattern: &State, s: &State) -> (r: bool)
    ensures
        r == state_matches(*pattern, *s),
{
    match (pattern, s) {
        (State::Composite(_), State::Composite(_)) => true,
        _ => pattern == s,
    }
}

/// Tagged events; `Fail` carries the failure text and `ParseComplete` a
/// count as payload.
#[derive(Debug, Clone)]
pub enum Event {
    Start,
    Pause,
    Resume,
    Finish,
    Fail(String),
    ParseComplete(u64),
}

/// Two events have the same shape when they carry the same tag,
/// irrespective of payload.
pub open spec fn same_shape(a: Event, b: Event) -> bool {
    match (a, b) {
        (Event::Start, Event::Start) => true,
        (Event::Pause, Event::Pause) => true,
        (Event::Resume, Event::Resume) => true,
        (Event::Finish, Event::Finish) => true,
        (Event::Fail(_), Event::Fail(_)) => true,
        (Event::ParseComplete(_), Event::ParseComplete(_)) => true,
        _ => false,
    }
}

/// Decides [`same_shape`] on two event values.
pub fn same_shape_of(a: &Event, b: &Event) -> (r: bool)
    ensures
        r == same_shape(*a, *b),
{
    match (a, b) {
        (Event::Start, Event::Start) => true,
        (Event::Pause, Event::Pause) => true,
        (Event::Resume, Event::Resume) => true,
        (Event::Finish, Event::Finish) => true,
        (Event::Fail(_), Event::Fail(_)) => true,
        (Event::ParseComplete(_), Event::ParseComplete(_)) => true,
        _ => false,
    }
}

/// One legal move: from `from` to `to` when an event shaped like `event`
/// arrives.
pub struct Transition<S, E> {
    from: S,
    to: S,
    event: E,
}

/// An unguarded machine: a current state, an ordered transition table and
/// a counter of accepted events.
pub struct FSM<S, E> {
    current_state: S,
    transitions: Vec<Transition<S, E>>,
    transition_count: usize,
    last_transition_time: Option<Instant>,
}

/// The abstract value of a basic machine: the current state, the table as
/// ordered (from, to, event) triples, the number of accepted events, and
/// whether a transition has been timed.
#[verifier::ext_equal]
pub struct FsmView {
    pub current: State,
    pub transitions: Seq<(State, State, Event)>,
    pub count: nat,
    pub timed: bool,
}

impl View for FSM<State, Event> {
    type V = FsmView;

    closed spec fn view(&self) -> FsmView {
        FsmView {
            current: self.current_state,
            transitions: self.transitions@.map_values(
                |t: Transition<State, Event>| (t.from, t.to, t.event),
            ),
            count: self.transition_count as nat,
            timed: self.last_transition_time is Some,
        }
    }
}

/// Holds when entry `i` of the table fires from `cur` on an event shaped
/// like `e`.
pub open spec fn matches_at(ts: Seq<(State, State, Event)>, cur: State, e: Event, i: int) -> bool {
    state_matches(ts[i].0, cur) && same_shape(ts[i].2, e)
}

/// The first entry at or after `i` that fires from `cur` on `e`, if any.
pub open spec fn first_match_from(
    ts: Seq<(State, State, Event)>,
    cur: State,
    e: Event,
    i: int,
) -> Option<int>
    decreases ts.len() - i,
{
    if i >= ts.len() {
        None
    } else if matches_at(ts, cur, e, i) {
        Some(i)
    } else {
        first_match_from(ts, cur, e, i + 1)
    }
}

/// The first entry of the table that fires from `cur` on `e`, if any.
pub open spec fn first_match(ts: Seq<(State, State, Event)>, cur: State, e: Event) -> Option<int> {
    first_match_from(ts, cur, e, 0)
}

/// The display label of a state.
pub open spec fn state_label(s: State) -> Seq<char>
    decreases s,
{
    match s {
        State::Init => "Init"@,
        State::Running => "Running"@,
        State::Paused => "Paused"@,
        State::Processing => "Processing"@,
        State::Complete => "Complete"@,
        State::Error => "Error"@,
        State::Cancelled => "Cancelled"@,
        State::Composite(inner) => "Composite("@ + state_label(*inner) + ")"@,
    }
}

/// The display label of an event, payload included.
pub open spec fn event_label(e: Event) -> Seq<char> {
    match e {
        Event::Start => "Start"@,
        Event::Pause => "Pause"@,
        Event::Resume => "Resume"@,
        Event::Finish => "Finish"@,
        Event::Fail(m) => "Fail("@ + m@ + ")"@,
        Event::ParseComplete(n) => "ParseComplete("@ + dec_rep(n as nat) + ")"@,
    }
}

/// The text reported when no table entry accepts an event.
pub open spec fn no_transition_text(s: State, e: Event) -> Seq<char> {
    "No valid transition from "@ + state_label(s) + " with event "@ + event_label(e)
}

/// Builds the display label of a state.
pub fn state_text(s: &State) -> (r: String)
    ensures
        r@ == state_label(*s),
    decreases *s,
{
    match s {
        State::Init => String::from_str("Init"),
        State::Running => String::from_str("Running"),
        State::Paused => String::from_str("Paused"),
        State::Processing => String::from_str("Processing"),
        State::Complete => String::from_str("Complete"),
        State::Error => String::from_str("Error"),
        State::Cancelled => String::from_str("Cancelled"),
        State::Composite(inner) => {
            let mut out = String::from_str("Composite(");
            let body = state_text(&**inner);
            out.append(body.as_str());
            out.append(")");
            out
        },
    }
}

/// Builds the display label of an event.
pub fn event_text(e: &Event) -> (r: String)
    ensures
        r@ == event_label(*e),
{
    match e {
        Event::Start => String::from_str("Start"),
        Event::Pause => String::from_str("Pause"),
        Event::Resume => String::from_str("Resume"),
        Event::Finish => String::from_str("Finish"),
        Event::Fail(m) => {
            let mut s = String::from_str("Fail(");
            s.append(m.as_str());
            s.append(")");
            s
        },
        Event::ParseComplete(n) => {
            let mut s = String::from_str("ParseComplete(");
            append_decimal(&mut s, *n);
            s.append(")");
            s
        },
    }
}

impl FSM<State, Event> {
    /// A machine resting in `initial_state` with an empty table.
    pub fn new(initial_state: State) -> (r: Self)
        ensures
            r@.current == initial_state,
            r@.transitions == Seq::<(State, State, Event)>::empty(),
            r@.count == 0,
            !r@.timed,
    {
        let r = Self {
            current_state: initial_state,
            transitions: Vec::new(),
            transition_count: 0,
            last_transition_time: None,
        };
        proof {
            assert(r@.transitions =~= Seq::<(State, State, Event)>::empty());
        }
        r
    }

    /// Appends one legal move to the table; earlier entries win ties.
    pub fn add_transition(self, from: State, to: State, event: Event) -> (r: Self)
        ensures
            r@.current == self@.current,
            r@.count == self@.count,
            r@.timed == self@.timed,
            r@.transitions == self@.transitions.push((from, to, event)),
    {
        let ghost pre = self@.transitions;
        let mut s = self;
        s.transitions.push(Transition { from, to, event });
        proof {
            assert(s@.transitions =~= pre.push((from, to, event)));
        }
        s
    }

    /// Feeds one event: the first table entry that leaves the current
    /// state on the event's shape fires; its target becomes current and
    /// the counter grows. When nothing fires the machine is unchanged and
    /// the error text names the state and the event.
    pub fn process_event(&mut self, event: Event) -> (r: Result<State, String>)
        requires
            old(self)@.count < usize::MAX,
        ensures
            final(self)@.transitions == old(self)@.transitions,
            match first_match(old(self)@.transitions, old(self)@.current, event) {
                Some(i) => {
                    &&& r == Ok::<State, String>(old(self)@.transitions[i].1)
                    &&& final(self)@.current == old(self)@.transitions[i].1
                    &&& final(self)@.count == old(self)@.count + 1
                    &&& final(self)@.timed
                },
                None => {
                    &&& final(self)@ == old(self)@
                    &&& match r {
                        Ok(_) => false,
                        Err(m) => m@ == no_transition_text(old(self)@.current, event),
                    }
                },
            },
    {
        let start = Instant::now();
        let ghost ts = self@.transitions;
        let ghost cur = self@.current;

        let n = self.transitions.len();
        let mut i: usize = 0;
        while i < n
            invariant
                n == ts.len(),
                0 <= i <= n,
                ts == self@.transitions,
                cur == self@.current,
                *self == *old(self),
                self@.count < usize::MAX,
                first_match(ts, cur, event) == first_match_from(ts, cur, event, i as int),
            decreases n - i,
        {
            let fires = state_matches_exec(&self.transitions[i].from, &self.current_state)
                && same_shape_of(&self.transitions[i].event, &event);
            if fires {
                proof {
                    assert(first_match_from(ts, cur, event, i as int) == Some(i as int));
                }
                let to = self.transitions[i].to.clone();
                self.current_state = to.clone();
                self.transition_count = self.transition_count + 1;
                self.last_transition_time = Some(start);
                return Ok(to);
            }
            i = i + 1;
        }

        let mut msg = String::from_str("No valid transition from ");
        let st = state_text(&self.current_state);
        msg.append(st.as_str());
        msg.append(" with event ");
        let ev = event_text(&event);
        msg.append(ev.as_str());
        proof {
            assert(final(self)@ =~= old(self)@);
        }
        Err(msg)
    }

    /// The state the machine is resting in.
    pub fn current_state(&self) -> (r: State)
        ensures
            r == self@.current,
    {
        self.current_state.clone()
    }

    /// How many events have been accepted.
    pub fn transition_count(&self) -> (r: usize)
        ensures
            r == self@.count,
    {
        self.transition_count
    }

    /// The wall-clock time since the last accepted event, if any was
    /// accepted. The value comes from the system clock.
    pub fn last_transition_duration(&self) -> (r: Option<Duration>)
        ensures
            r is Some <==> self@.timed,
    {
        match &self.last_transition_time {
            Some(t) => Some(t.elapsed()),
            None => None,
        }
    }
}

/// The five-transition workflow machine used by the examples and tests.
pub fn create_basic_fsm() -> (r: FSM<State, Event>)
    ensures
        r@.current == State::Init,
        r@.count == 0,
        !r@.timed,
        r@.transitions.len() == 5,
        r@.transitions[0] == (State::Init, State::Running, Event::Start),
        r@.transitions[1] == (State::Running, State::Paused, Event::Pause),
        r@.transitions[2] == (State::Paused, State::Running, Event::Resume),
        r@.transitions[3] == (State::Running, State::Complete, Event::Finish),
        r@.transitions[4].0 == State::Running,
        r@.transitions[4].1 == State::Error,
        r@.transitions[4].2 matches Event::Fail(m) && m@ == "error"@,
{
    FSM::new(State::Init)
        .add_transition(State::Init, State::Running, Event::Start)
        .add_transition(State::Running, State::Paused, Event::Pause)
        .add_transition(State::Paused, State::Running, Event::Resume)
        .add_transition(State::Running, State::Complete, Event::Finish)
        .add_transition(State::Running, State::Error, Event::Fail(String::from_str("error")))
}

} // verus!
