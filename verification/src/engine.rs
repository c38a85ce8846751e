//! The guarded transition engine. A [`FsmBuilder`] accumulates an ordered
//! transition table, a registry of named guards, a list of safety
//! invariants and two ordered hook lists, and produces an immutable-table
//! runtime [`Fsm`]. The runtime resolves each incoming event against the
//! table in registration order — the first structurally matching entry
//! whose guard accepts wins — then checks every invariant against the
//! candidate state before committing. A committed transition updates the
//! bounded history, the event log, the counter and the rollback stack, and
//! records one notification per registered hook; a rejected event changes
//! nothing.

use vstd::prelude::*;
use std::collections::VecDeque;
use crate::fsm::{State, Event, same_shape, same_shape_of, state_matches, state_matches_exec};

verus! {

/// The error taxonomy of the engine: a builder without an initial state,
/// an event no table entry accepts, a candidate state some invariant
/// rejects, and work cancelled before completion.
#[derive(Debug)]
pub enum FsmError {
    MissingInitialState,
    NoValidTransition { from: State, event: Event },
    InvariantViolation { candidate_state: State },
    Cancelled,
}

/// A reusable predicate over (current state, incoming event), registered
/// under a name and referenced by transitions.
#[derive(Debug, Clone)]
pub enum GuardPred {
    /// Accepts always.
    Always,
    /// Rejects always.
    Never,
    /// The machine currently rests in exactly the given state.
    InState(State),
    /// The event carries a count of at least the bound.
    CountAtLeast(u64),
    /// The event carries a count below the bound.
    CountBelow(u64),
    /// The event is a failure whose text is non-empty.
    FailureNamed,
}

/// What a guard means.
pub open spec fn guard_holds(g: GuardPred, s: State, e: Event) -> bool {
    match g {
        GuardPred::Always => true,
        GuardPred::Never => false,
        GuardPred::InState(t) => s == t,
        GuardPred::CountAtLeast(k) => e matches Event::ParseComplete(n) && n >= k,
        GuardPred::CountBelow(k) => e matches Event::ParseComplete(n) && n < k,
        GuardPred::FailureNamed => e matches Event::Fail(m) && m@.len() > 0,
    }
}

/// Decides [`guard_holds`].
pub fn eval_guard(g: &GuardPred, s: &State, e: &Event) -> (r: bool)
    ensures
        r == guard_holds(*g, *s, *e),
{
    match g {
        GuardPred::Always => true,
        GuardPred::Never => false,
        GuardPred::InState(t) => s == t,
        GuardPred::CountAtLeast(k) => match e {
            Event::ParseComplete(n) => *n >= *k,
            _ => false,
        },
        GuardPred::CountBelow(k) => match e {
            Event::ParseComplete(n) => *n < *k,
            _ => false,
        },
        GuardPred::FailureNamed => match e {
            Event::Fail(m) => !m.as_str().is_empty(),
            _ => false,
        },
    }
}

/// A safety predicate over a candidate next state; every registered
/// invariant must accept a candidate before a transition commits.
#[derive(Debug, Clone)]
pub enum InvariantPred {
    /// Accepts every state.
    Always,
    /// Rejects exactly the given state.
    NotState(State),
}

/// What an invariant means.
pub open spec fn inv_holds(p: InvariantPred, s: State) -> bool {
    match p {
        InvariantPred::Always => true,
        InvariantPred::NotState(t) => s != t,
    }
}

/// Decides [`inv_holds`].
pub fn eval_invariant(p: &InvariantPred, s: &State) -> (r: bool)
    ensures
        r == inv_holds(*p, *s),
{
    match p {
        InvariantPred::Always => true,
        InvariantPred::NotState(t) => !(s == t),
    }
}

/// All registered invariants accept `s`.
pub open spec fn invariants_hold(invs: Seq<InvariantPred>, s: State) -> bool {
    forall|j: int| 0 <= j < invs.len() ==> inv_holds(#[trigger] invs[j], s)
}

/// Whether a hook observed the state before or after the commit.
#[derive(Debug, Clone, Copy, PartialEq, Eq, Structural)]
pub enum HookPhase {
    Before,
    After,
}

/// One recorded hook invocation: the hook's name, the state it observed,
/// and the phase. The engine records invocations in order; the embedding
/// drains them and dispatches to the actual observers.
#[derive(Debug, Clone)]
pub struct Notice {
    pub hook: String,
    pub state: State,
    pub phase: HookPhase,
}

/// The abstract value of a notice.
#[verifier::ext_equal]
pub struct NoticeModel {
    pub hook: Seq<char>,
    pub state: State,
    pub phase: HookPhase,
}

/// The abstract value of an exec notice.
pub open spec fn notice_model(n: Notice) -> NoticeModel {
    NoticeModel { hook: n.hook@, state: n.state, phase: n.phase }
}

/// The abstract values of a queue of notices, in order.
pub open spec fn notices_view(v: Seq<Notice>) -> Seq<NoticeModel>
    decreases v.len(),
{
    if v.len() == 0 {
        Seq::empty()
    } else {
        notices_view(v.drop_last()).push(notice_model(v.last()))
    }
}

/// The notices that one ordered hook list produces when it observes `s`.
pub open spec fn hook_notices(names: Seq<Seq<char>>, s: State, phase: HookPhase) -> Seq<
    NoticeModel,
> {
    names.map_values(|n: Seq<char>| NoticeModel { hook: n, state: s, phase })
}

/// One table entry: from `from` to `to` when an event shaped like `event`
/// arrives and the referenced guard (if any) accepts.
#[derive(Debug)]
pub struct Transition {
    from: State,
    to: State,
    event: Event,
    guard: Option<String>,
}

/// The abstract value of a table entry; the guard is its name.
#[verifier::ext_equal]
pub struct TransitionModel {
    pub from: State,
    pub to: State,
    pub event: Event,
    pub guard: Option<Seq<char>>,
}

/// The name view of an optional guard reference.
pub open spec fn opt_name(g: Option<String>) -> Option<Seq<char>> {
    match g {
        None => None,
        Some(s) => Some(s@),
    }
}

/// One named guard registration.
#[derive(Debug)]
pub struct NamedGuard {
    name: String,
    pred: GuardPred,
}

/// The abstract value of a guard registration.
#[verifier::ext_equal]
pub struct GuardModel {
    pub name: Seq<char>,
    pub pred: GuardPred,
}

/// The registered predicate under `name`, searching at or after `i`; the
/// first registration of a name wins.
pub open spec fn lookup_guard_from(gs: Seq<GuardModel>, name: Seq<char>, i: int) -> Option<
    GuardPred,
>
    decreases gs.len() - i,
{
    if i >= gs.len() {
        None
    } else if gs[i].name == name {
        Some(gs[i].pred)
    } else {
        lookup_guard_from(gs, name, i + 1)
    }
}

/// The registered predicate under `name`, if any.
pub open spec fn lookup_guard(gs: Seq<GuardModel>, name: Seq<char>) -> Option<GuardPred> {
    lookup_guard_from(gs, name, 0)
}

/// A guard reference accepts when it is absent, or when it names a
/// registered guard that holds of (state, event). A dangling reference
/// never accepts: such a transition is inert.
pub open spec fn guard_ok(
    gs: Seq<GuardModel>,
    g: Option<Seq<char>>,
    s: State,
    e: Event,
) -> bool {
    match g {
        None => true,
        Some(name) => match lookup_guard(gs, name) {
            Some(p) => guard_holds(p, s, e),
            None => false,
        },
    }
}

/// The abstract value of a running engine.
#[verifier::ext_equal]
pub struct EngineView {
    pub initial: State,
    pub current: State,
    pub transitions: Seq<TransitionModel>,
    pub guards: Seq<GuardModel>,
    pub invariants: Seq<InvariantPred>,
    pub history: Seq<State>,
    pub capacity: nat,
    pub log: Seq<Event>,
    pub count: nat,
    pub rollback: Seq<State>,
    pub pre_hooks: Seq<Seq<char>>,
    pub post_hooks: Seq<Seq<char>>,
    pub notices: Seq<NoticeModel>,
    pub delay_ms: nat,
}

/// Entry `i` of the table is a candidate for `e` and its guard accepts.
pub open spec fn enabled_at(m: EngineView, e: Event, i: int) -> bool {
    &&& state_matches(m.transitions[i].from, m.current)
    &&& same_shape(m.transitions[i].event, e)
    &&& guard_ok(m.guards, m.transitions[i].guard, m.current, e)
}

/// The first enabled entry at or after `i`, if any.
pub open spec fn first_enabled_from(m: EngineView, e: Event, i: int) -> Option<int>
    decreases m.transitions.len() - i,
{
    if i >= m.transitions.len() {
        None
    } else if enabled_at(m, e, i) {
        Some(i)
    } else {
        first_enabled_from(m, e, i + 1)
    }
}

/// The entry that wins the resolution of `e`: the first, in registration
/// order, that structurally matches and whose guard accepts.
pub open spec fn first_enabled(m: EngineView, e: Event) -> Option<int> {
    first_enabled_from(m, e, 0)
}

/// A bounded append: with a zero capacity nothing is kept; at capacity the
/// oldest entry leaves. The length never exceeds the capacity.
pub open spec fn push_bounded(h: Seq<State>, s: State, cap: nat) -> Seq<State> {
    if cap == 0 {
        h
    } else if h.len() >= cap {
        h.skip(1).push(s)
    } else {
        h.push(s)
    }
}

/// The engine after processing `e` from snapshot `m`: unchanged unless an
/// enabled entry wins and every invariant accepts its target, in which
/// case the old state enters history and the rollback stack, the event is
/// logged, the counter grows, and the hooks' notices are recorded.
pub open spec fn step_view(m: EngineView, e: Event) -> EngineView {
    match first_enabled(m, e) {
        None => m,
        Some(i) => {
            let to = m.transitions[i].to;
            if invariants_hold(m.invariants, to) {
                EngineView {
                    current: to,
                    history: push_bounded(m.history, m.current, m.capacity),
                    log: m.log.push(e),
                    count: m.count + 1,
                    rollback: m.rollback.push(m.current),
                    notices: m.notices + hook_notices(m.pre_hooks, m.current, HookPhase::Before)
                        + hook_notices(m.post_hooks, to, HookPhase::After),
                    ..m
                }
            } else {
                m
            }
        },
    }
}

/// The result of processing `e` from snapshot `m`: the new state on
/// acceptance, and otherwise exactly which rejection occurred.
pub open spec fn step_result(m: EngineView, e: Event) -> Result<State, FsmError> {
    match first_enabled(m, e) {
        None => Err(FsmError::NoValidTransition { from: m.current, event: e }),
        Some(i) => {
            let to = m.transitions[i].to;
            if invariants_hold(m.invariants, to) {
                Ok(to)
            } else {
                Err(FsmError::InvariantViolation { candidate_state: to })
            }
        },
    }
}

/// The abstract value of a builder.
#[verifier::ext_equal]
pub struct BuilderView {
    pub initial: Option<State>,
    pub transitions: Seq<TransitionModel>,
    pub guards: Seq<GuardModel>,
    pub invariants: Seq<InvariantPred>,
    pub pre_hooks: Seq<Seq<char>>,
    pub post_hooks: Seq<Seq<char>>,
    pub capacity: nat,
    pub delay_ms: nat,
}

/// Accumulates the declarative description of a machine and builds the
/// runtime engine. The builder is consumed by [`FsmBuilder::build`].
#[derive(Debug)]
pub struct FsmBuilder {
    initial_state: Option<State>,
    transitions: Vec<Transition>,
    guards: Vec<NamedGuard>,
    invariants: Vec<InvariantPred>,
    pre_hooks: Vec<String>,
    post_hooks: Vec<String>,
    history_capacity: usize,
    rollback_delay_ms: u64,
}

/// The view of an exec transition entry.
pub closed spec fn transition_model(t: Transition) -> TransitionModel {
    TransitionModel { from: t.from, to: t.to, event: t.event, guard: opt_name(t.guard) }
}

/// The view of an exec guard registration.
pub closed spec fn guard_model(g: NamedGuard) -> GuardModel {
    GuardModel { name: g.name@, pred: g.pred }
}

/// The abstract values of a table.
pub open spec fn transitions_view(v: Seq<Transition>) -> Seq<TransitionModel> {
    v.map_values(|t: Transition| transition_model(t))
}

/// The abstract values of a guard registry.
pub open spec fn guards_view(v: Seq<NamedGuard>) -> Seq<GuardModel> {
    v.map_values(|g: NamedGuard| guard_model(g))
}

/// The name views of an ordered hook list.
pub open spec fn names_view(l: Seq<String>) -> Seq<Seq<char>> {
    l.map_values(|s: String| s@)
}

impl View for FsmBuilder {
    type V = BuilderView;

    closed spec fn view(&self) -> BuilderView {
        BuilderView {
            initial: self.initial_state,
            transitions: transitions_view(self.transitions@),
            guards: guards_view(self.guards@),
            invariants: self.invariants@,
            pre_hooks: names_view(self.pre_hooks@),
            post_hooks: names_view(self.post_hooks@),
            capacity: self.history_capacity as nat,
            delay_ms: self.rollback_delay_ms as nat,
        }
    }
}

impl FsmBuilder {
    /// An empty builder: no initial state, no table entries, no guards,
    /// no invariants, no hooks, a history capacity of 100 and no rollback
    /// pacing.
    pub fn new() -> (r: FsmBuilder)
        ensures
            r@ == (BuilderView {
                initial: None,
                transitions: Seq::<TransitionModel>::empty(),
                guards: Seq::<GuardModel>::empty(),
                invariants: Seq::<InvariantPred>::empty(),
                pre_hooks: Seq::<Seq<char>>::empty(),
                post_hooks: Seq::<Seq<char>>::empty(),
                capacity: 100,
                delay_ms: 0,
            }),
    {
        let r = FsmBuilder {
            initial_state: None,
            transitions: Vec::new(),
            guards: Vec::new(),
            invariants: Vec::new(),
            pre_hooks: Vec::new(),
            post_hooks: Vec::new(),
            history_capacity: 100,
            rollback_delay_ms: 0,
        };
        proof {
            assert(r@ =~= BuilderView {
                initial: None,
                transitions: Seq::<TransitionModel>::empty(),
                guards: Seq::<GuardModel>::empty(),
                invariants: Seq::<InvariantPred>::empty(),
                pre_hooks: Seq::<Seq<char>>::empty(),
                post_hooks: Seq::<Seq<char>>::empty(),
                capacity: 100,
                delay_ms: 0,
            });
        }
        r
    }

    /// Records the starting state; calling it again overwrites the prior
    /// value (the last write wins).
    pub fn initial_state(self, state: State) -> (r: FsmBuilder)
        ensures
            r@ == (BuilderView { initial: Some(state), ..self@ }),
    {
        let mut s = self;
        s.initial_state = Some(state);
        proof {
            assert(s@ =~= BuilderView { initial: Some(state), ..self@ });
        }
        s
    }

    /// Appends an unguarded table entry.
    pub fn transition(self, from: State, to: State, event: Event) -> (r: FsmBuilder)
        ensures
            r@ == (BuilderView {
                transitions: self@.transitions.push(TransitionModel { from, to, event, guard: None }),
                ..self@
            }),
    {
        let mut s = self;
        s.transitions.push(Transition { from, to, event, guard: None });
        proof {
            assert(s@ =~= BuilderView {
                transitions: self@.transitions.push(
                    TransitionModel { from, to, event, guard: None },
                ),
                ..self@
            });
        }
        s
    }

    /// Appends a table entry gated by the guard registered under `guard`.
    /// The name may be registered before or after this call; a name that
    /// is never registered leaves the entry inert at runtime.
    pub fn guarded_transition(self, from: State, to: State, event: Event, guard: String) -> (r:
        FsmBuilder)
        ensures
            r@ == (BuilderView {
                transitions: self@.transitions.push(
                    TransitionModel { from, to, event, guard: Some(guard@) },
                ),
                ..self@
            }),
    {
        let mut s = self;
        s.transitions.push(Transition { from, to, event, guard: Some(guard) });
        proof {
            assert(s@ =~= BuilderView {
                transitions: self@.transitions.push(
                    TransitionModel { from, to, event, guard: Some(guard@) },
                ),
                ..self@
            });
        }
        s
    }

    /// Registers a reusable guard predicate under a name. The first
    /// registration of a name wins.
    pub fn register_guard(self, name: String, pred: GuardPred) -> (r: FsmBuilder)
        ensures
            r@ == (BuilderView {
                guards: self@.guards.push(GuardModel { name: name@, pred }),
                ..self@
            }),
    {
        let mut s = self;
        s.guards.push(NamedGuard { name, pred });
        proof {
            assert(s@ =~= BuilderView {
                guards: self@.guards.push(GuardModel { name: name@, pred }),
                ..self@
            });
        }
        s
    }

    /// Registers a safety invariant; every registered invariant must
    /// accept a candidate state before a transition commits.
    pub fn register_invariant(self, pred: InvariantPred) -> (r: FsmBuilder)
        ensures
            r@ == (BuilderView { invariants: self@.invariants.push(pred), ..self@ }),
    {
        let mut s = self;
        s.invariants.push(pred);
        proof {
            assert(s@ =~= BuilderView { invariants: self@.invariants.push(pred), ..self@ });
        }
        s
    }

    /// Appends a pre-transition hook; pre-hooks observe the state being
    /// left, in registration order.
    pub fn pre_hook(self, name: String) -> (r: FsmBuilder)
        ensures
            r@ == (BuilderView { pre_hooks: self@.pre_hooks.push(name@), ..self@ }),
    {
        let mut s = self;
        s.pre_hooks.push(name);
        proof {
            assert(s@ =~= BuilderView { pre_hooks: self@.pre_hooks.push(name@), ..self@ });
        }
        s
    }

    /// Appends a post-transition hook; post-hooks observe the state just
    /// entered, in registration order.
    pub fn post_hook(self, name: String) -> (r: FsmBuilder)
        ensures
            r@ == (BuilderView { post_hooks: self@.post_hooks.push(name@), ..self@ }),
    {
        let mut s = self;
        s.post_hooks.push(name);
        proof {
            assert(s@ =~= BuilderView { post_hooks: self@.post_hooks.push(name@), ..self@ });
        }
        s
    }

    /// Sets how many prior states the history ledger keeps.
    pub fn history_capacity(self, capacity: usize) -> (r: FsmBuilder)
        ensures
            r@ == (BuilderView { capacity: capacity as nat, ..self@ }),
    {
        let mut s = self;
        s.history_capacity = capacity;
        proof {
            assert(s@ =~= BuilderView { capacity: capacity as nat, ..self@ });
        }
        s
    }

    /// Sets the pacing delay the embedding should apply between rollback
    /// steps; the engine only stores it (pacing is observability, not
    /// correctness).
    pub fn rollback_delay_ms(self, ms: u64) -> (r: FsmBuilder)
        ensures
            r@ == (BuilderView { delay_ms: ms as nat, ..self@ }),
    {
        let mut s = self;
        s.rollback_delay_ms = ms;
        proof {
            assert(s@ =~= BuilderView { delay_ms: ms as nat, ..self@ });
        }
        s
    }

    /// Consumes the builder. Without an initial state the build fails;
    /// otherwise the runtime starts in the initial state with empty
    /// history, log, counter, rollback stack and notice queue.
    pub fn build(self) -> (r: Result<Fsm, FsmError>)
        ensures
            match self@.initial {
                None => r matches Err(e) && e matches FsmError::MissingInitialState,
                Some(s0) => r matches Ok(f) && f.wf() && f@ == (EngineView {
                    initial: s0,
                    current: s0,
                    transitions: self@.transitions,
                    guards: self@.guards,
                    invariants: self@.invariants,
                    history: Seq::<State>::empty(),
                    capacity: self@.capacity,
                    log: Seq::<Event>::empty(),
                    count: 0,
                    rollback: Seq::<State>::empty(),
                    pre_hooks: self@.pre_hooks,
                    post_hooks: self@.post_hooks,
                    notices: Seq::<NoticeModel>::empty(),
                    delay_ms: self@.delay_ms,
                }),
            },
    {
        let FsmBuilder {
            initial_state,
            transitions,
            guards,
            invariants,
            pre_hooks,
            post_hooks,
            history_capacity,
            rollback_delay_ms,
        } = self;
        match initial_state {
            None => Err(FsmError::MissingInitialState),
            Some(s0) => {
                let f = Fsm {
                    initial_state: s0.clone(),
                    current_state: s0,
                    transitions,
                    guards,
                    invariants,
                    history: VecDeque::new(),
                    history_capacity,
                    event_log: Vec::new(),
                    transition_count: 0,
                    rollback_stack: Vec::new(),
                    pre_hooks,
                    post_hooks,
                    notifications: Vec::new(),
                    rollback_delay_ms,
                };
                proof {
                    assert(f@ =~= EngineView {
                        initial: self@.initial->Some_0,
                        current: self@.initial->Some_0,
                        transitions: self@.transitions,
                        guards: self@.guards,
                        invariants: self@.invariants,
                        history: Seq::<State>::empty(),
                        capacity: self@.capacity,
                        log: Seq::<Event>::empty(),
                        count: 0,
                        rollback: Seq::<State>::empty(),
                        pre_hooks: self@.pre_hooks,
                        post_hooks: self@.post_hooks,
                        notices: Seq::<NoticeModel>::empty(),
                        delay_ms: self@.delay_ms,
                    });
                }
                Ok(f)
            },
        }
    }
}

impl Default for FsmBuilder {
    fn default() -> (r: FsmBuilder)
        ensures
            r@ == FsmBuilder::default_view(),
    {
        FsmBuilder::new()
    }
}

impl FsmBuilder {
    /// The view of a fresh builder.
    pub open spec fn default_view() -> BuilderView {
        BuilderView {
            initial: None,
            transitions: Seq::<TransitionModel>::empty(),
            guards: Seq::<GuardModel>::empty(),
            invariants: Seq::<InvariantPred>::empty(),
            pre_hooks: Seq::<Seq<char>>::empty(),
            post_hooks: Seq::<Seq<char>>::empty(),
            capacity: 100,
            delay_ms: 0,
        }
    }
}

/// The runtime engine produced by [`FsmBuilder::build`]. The table, guard
/// registry, invariant list and hook lists never change after the build;
/// only `process_event`, `rollback`, `cancel` and `reset` move the rest.
#[derive(Debug)]
pub struct Fsm {
    initial_state: State,
    current_state: State,
    transitions: Vec<Transition>,
    guards: Vec<NamedGuard>,
    invariants: Vec<InvariantPred>,
    history: VecDeque<State>,
    history_capacity: usize,
    event_log: Vec<Event>,
    transition_count: usize,
    rollback_stack: Vec<State>,
    pre_hooks: Vec<String>,
    post_hooks: Vec<String>,
    notifications: Vec<Notice>,
    rollback_delay_ms: u64,
}

impl View for Fsm {
    type V = EngineView;

    closed spec fn view(&self) -> EngineView {
        EngineView {
            initial: self.initial_state,
            current: self.current_state,
            transitions: transitions_view(self.transitions@),
            guards: guards_view(self.guards@),
            invariants: self.invariants@,
            history: self.history@,
            capacity: self.history_capacity as nat,
            log: self.event_log@,
            count: self.transition_count as nat,
            rollback: self.rollback_stack@,
            pre_hooks: names_view(self.pre_hooks@),
            post_hooks: names_view(self.post_hooks@),
            notices: notices_view(self.notifications@),
            delay_ms: self.rollback_delay_ms as nat,
        }
    }
}

/// Records one notice per name of `list`, in order, all observing `s` in
/// the given phase.
fn notify_hooks(list: &Vec<String>, s: &State, phase: HookPhase, out: &mut Vec<Notice>)
    ensures
        notices_view(final(out)@) == notices_view(old(out)@)
            + hook_notices(names_view(list@), *s, phase),
{
    let ghost expected = hook_notices(names_view(list@), *s, phase);
    let n = list.len();
    let mut j: usize = 0;
    proof {
        assert(notices_view(out@) =~= notices_view(old(out)@) + expected.take(0));
    }
    while j < n
        invariant
            n == list.len(),
            0 <= j <= n,
            expected == hook_notices(names_view(list@), *s, phase),
            notices_view(out@) == notices_view(old(out)@)
                + expected.take(j as int),
        decreases n - j,
    {
        let notice = Notice { hook: list[j].clone(), state: s.clone(), phase };
        proof {
            assert(notice_model(notice) == expected[j as int]);
        }
        let ghost pre = out@;
        out.push(notice);
        proof {
            assert(out@.drop_last() =~= pre);
            assert(notices_view(out@) == notices_view(pre).push(notice_model(notice)));
            assert(notices_view(old(out)@) + expected.take(j as int + 1) =~= (notices_view(
                old(out)@,
            ) + expected.take(j as int)).push(expected[j as int]));
        }
        j = j + 1;
    }
    proof {
        assert(expected.take(n as int) =~= expected);
    }
}

impl Fsm {
    /// The structural invariant of a running engine: the history respects
    /// its capacity, the counter equals the log length, and the rollback
    /// stack never outgrows the counter.
    pub open spec fn wf(&self) -> bool {
        &&& self@.history.len() <= self@.capacity
        &&& self@.count == self@.log.len()
        &&& self@.rollback.len() <= self@.count
    }

    /// Decides whether the guard reference `g` accepts `e` now.
    fn guard_accepts(&self, g: &Option<String>, e: &Event) -> (r: bool)
        ensures
            r == guard_ok(self@.guards, opt_name(*g), self@.current, *e),
    {
        match g {
            None => true,
            Some(name) => {
                let ghost gs = self@.guards;
                let n = self.guards.len();
                let mut j: usize = 0;
                while j < n
                    invariant
                        n == self.guards.len(),
                        gs == self@.guards,
                        opt_name(*g) == Some(name@),
                        0 <= j <= n,
                        lookup_guard(gs, name@) == lookup_guard_from(gs, name@, j as int),
                    decreases n - j,
                {
                    if self.guards[j].name == *name {
                        proof {
                            assert(lookup_guard_from(gs, name@, j as int)
                                == Some(gs[j as int].pred));
                        }
                        return eval_guard(&self.guards[j].pred, &self.current_state, e);
                    }
                    j = j + 1;
                }
                proof {
                    assert(lookup_guard_from(gs, name@, n as int) is None);
                }
                false
            },
        }
    }

    /// Finds the winning table entry for `e`, if any.
    fn find_first_enabled(&self, e: &Event) -> (r: Option<usize>)
        ensures
            match r {
                Some(i) => i < self@.transitions.len() && first_enabled(self@, *e) == Some(
                    i as int,
                ),
                None => first_enabled(self@, *e) is None,
            },
    {
        let ghost m = self@;
        let n = self.transitions.len();
        let mut i: usize = 0;
        while i < n
            invariant
                n == m.transitions.len(),
                m == self@,
                0 <= i <= n,
                first_enabled(m, *e) == first_enabled_from(m, *e, i as int),
            decreases n - i,
        {
            let t = &self.transitions[i];
            let fires = state_matches_exec(&t.from, &self.current_state)
                && same_shape_of(&t.event, e) && self.guard_accepts(&t.guard, e);
            if fires {
                proof {
                    assert(enabled_at(m, *e, i as int));
                    assert(first_enabled_from(m, *e, i as int) == Some(i as int));
                }
                return Some(i);
            }
            i = i + 1;
        }
        None
    }

    /// Decides whether every registered invariant accepts `s`.
    fn invariants_ok(&self, s: &State) -> (r: bool)
        ensures
            r == invariants_hold(self@.invariants, *s),
    {
        let n = self.invariants.len();
        let mut j: usize = 0;
        while j < n
            invariant
                n == self.invariants@.len(),
                self.invariants@ == self@.invariants,
                0 <= j <= n,
                forall|k: int| 0 <= k < j ==> inv_holds(#[trigger] self@.invariants[k], *s),
            decreases n - j,
        {
            if !eval_invariant(&self.invariants[j], s) {
                proof {
                    assert(!inv_holds(self@.invariants[j as int], *s));
                }
                return false;
            }
            j = j + 1;
        }
        true
    }

    /// Appends `s` to the bounded history, evicting the oldest entry at
    /// capacity.
    fn push_history(&mut self, s: State)
        ensures
            final(self)@ == (EngineView {
                history: push_bounded(old(self)@.history, s, old(self)@.capacity),
                ..old(self)@
            }),
    {
        if self.history_capacity > 0 {
            if self.history.len() >= self.history_capacity {
                self.history.pop_front();
                proof {
                    if old(self)@.history.len() > 0 {
                        assert(self.history@ =~= old(self)@.history.skip(1));
                    }
                }
            }
            self.history.push_back(s);
        }
        proof {
            assert(final(self)@ =~= EngineView {
                history: push_bounded(old(self)@.history, s, old(self)@.capacity),
                ..old(self)@
            });
        }
    }

    /// Feeds one event. The first table entry, in registration order,
    /// that leaves the current state on the event's shape and whose guard
    /// accepts wins; every registered invariant must then accept its
    /// target. On acceptance the old state enters the bounded history and
    /// the rollback stack, the event is logged, the counter grows and the
    /// hooks' notices are recorded; any rejection leaves the engine
    /// exactly as it was.
    pub fn process_event(&mut self, event: Event) -> (r: Result<State, FsmError>)
        requires
            old(self).wf(),
        ensures
            final(self).wf(),
            final(self)@ == step_view(old(self)@, event),
            r == step_result(old(self)@, event),
    {
        let found = self.find_first_enabled(&event);
        match found {
            None => {
                let from = self.current_state.clone();
                Err(FsmError::NoValidTransition { from, event })
            },
            Some(i) => {
                let to = self.transitions[i].to.clone();
                if !self.invariants_ok(&to) {
                    Err(FsmError::InvariantViolation { candidate_state: to })
                } else {
                    let old_state = self.current_state.clone();
                    notify_hooks(
                        &self.pre_hooks,
                        &old_state,
                        HookPhase::Before,
                        &mut self.notifications,
                    );
                    self.push_history(old_state.clone());
                    self.rollback_stack.push(old_state);
                    self.current_state = to.clone();
                    self.event_log.push(event);
                    self.transition_count = self.event_log.len();
                    notify_hooks(
                        &self.post_hooks,
                        &self.current_state,
                        HookPhase::After,
                        &mut self.notifications,
                    );
                    proof {
                        assert(final(self)@ =~= step_view(old(self)@, event));
                    }
                    Ok(to)
                }
            },
        }
    }

    /// Engine-trusted state override used by the recovery and
    /// cancellation paths; it bypasses guards, invariants and hooks.
    pub(crate) fn set_current(&mut self, s: State)
        ensures
            final(self)@ == (EngineView { current: s, ..old(self)@ }),
    {
        self.current_state = s;
        proof {
            assert(final(self)@ =~= EngineView { current: final(self)@.current, ..old(self)@ });
        }
    }

    /// The state the engine is resting in.
    pub fn current_state(&self) -> (r: State)
        ensures
            r == self@.current,
    {
        self.current_state.clone()
    }

    /// The state the engine was built to start in.
    pub fn initial_state(&self) -> (r: State)
        ensures
            r == self@.initial,
    {
        self.initial_state.clone()
    }

    /// How many events have been accepted since the build or the last
    /// reset.
    pub fn transition_count(&self) -> (r: usize)
        ensures
            r == self@.count,
    {
        self.transition_count
    }

    /// The state a resume would return to: the most recent history
    /// entry, or the initial state while the history is empty.
    pub fn previous_state(&self) -> (r: State)
        ensures
            r == if self@.history.len() > 0 {
                self@.history.last()
            } else {
                self@.initial
            },
    {
        if self.history.len() > 0 {
            let idx = self.history.len() - 1;
            self.history[idx].clone()
        } else {
            self.initial_state.clone()
        }
    }

    /// How many checkpoints the rollback stack holds.
    pub fn rollback_depth(&self) -> (r: usize)
        ensures
            r == self@.rollback.len(),
    {
        self.rollback_stack.len()
    }

    /// The bounded history of prior states, oldest first.
    pub fn history(&self) -> (r: &VecDeque<State>)
        ensures
            r@ == self@.history,
    {
        &self.history
    }

    /// Every accepted event, in order.
    pub fn event_log(&self) -> (r: &Vec<Event>)
        ensures
            r@ == self@.log,
    {
        &self.event_log
    }

    /// The pacing delay the embedding should apply between rollback
    /// steps.
    pub fn rollback_delay_ms(&self) -> (r: u64)
        ensures
            r as nat == self@.delay_ms,
    {
        self.rollback_delay_ms
    }

    /// The recorded hook notifications, in the order they were produced.
    pub fn notifications(&self) -> (r: &Vec<Notice>)
        ensures
            notices_view(r@) == self@.notices,
    {
        &self.notifications
    }

    /// Hands out the recorded hook notifications and clears the queue.
    pub fn take_notifications(&mut self) -> (r: Vec<Notice>)
        ensures
            notices_view(r@) == old(self)@.notices,
            final(self)@ == (EngineView { notices: Seq::<NoticeModel>::empty(), ..old(self)@ }),
    {
        let mut out: Vec<Notice> = Vec::new();
        core::mem::swap(&mut out, &mut self.notifications);
        proof {
            assert(final(self)@ =~= EngineView {
                notices: Seq::<NoticeModel>::empty(),
                ..old(self)@
            });
            assert(notices_view(self.notifications@)
                =~= Seq::<NoticeModel>::empty());
        }
        out
    }

    /// One rollback step: pops the most recent checkpoint into the
    /// current state and reports whether checkpoints remain; on an empty
    /// stack it forces the initial state. The embedding may pace calls
    /// with [`Fsm::rollback_delay_ms`].
    pub fn rollback_step(&mut self) -> (more: bool)
        ensures
            more == (old(self)@.rollback.len() > 0),
            final(self)@ == if old(self)@.rollback.len() > 0 {
                EngineView {
                    current: old(self)@.rollback.last(),
                    rollback: old(self)@.rollback.drop_last(),
                    ..old(self)@
                }
            } else {
                EngineView { current: old(self)@.initial, ..old(self)@ }
            },
    {
        match self.rollback_stack.pop() {
            Some(s) => {
                self.current_state = s;
                proof {
                    assert(final(self)@ =~= EngineView {
                        current: old(self)@.rollback.last(),
                        rollback: old(self)@.rollback.drop_last(),
                        ..old(self)@
                    });
                }
                true
            },
            None => {
                self.current_state = self.initial_state.clone();
                proof {
                    assert(final(self)@ =~= EngineView {
                        current: old(self)@.initial,
                        ..old(self)@
                    });
                }
                false
            },
        }
    }

    /// Unwinds every checkpoint in turn and lands on the initial state;
    /// afterwards the rollback stack is empty. Rollback re-runs neither
    /// guards, nor invariants, nor hooks: it is the engine-trusted
    /// recovery path.
    pub fn rollback(&mut self)
        ensures
            final(self)@ == (EngineView {
                current: old(self)@.initial,
                rollback: Seq::<State>::empty(),
                ..old(self)@
            }),
    {
        while self.rollback_stack.len() > 0
            invariant
                self@ == (EngineView {
                    current: self@.current,
                    rollback: self@.rollback,
                    ..old(self)@
                }),
            decreases self@.rollback.len(),
        {
            self.rollback_step();
        }
        self.rollback_step();
        proof {
            assert(final(self)@ =~= EngineView {
                current: old(self)@.initial,
                rollback: Seq::<State>::empty(),
                ..old(self)@
            });
        }
    }

    /// Returns the engine to its initial state and clears the history,
    /// the log, the counter, the rollback stack and the notice queue; the
    /// table, guards, invariants and hooks are kept.
    pub fn reset(&mut self)
        ensures
            final(self)@ == (EngineView {
                current: old(self)@.initial,
                history: Seq::<State>::empty(),
                log: Seq::<Event>::empty(),
                count: 0,
                rollback: Seq::<State>::empty(),
                notices: Seq::<NoticeModel>::empty(),
                ..old(self)@
            }),
    {
        self.current_state = self.initial_state.clone();
        self.history.clear();
        self.event_log.clear();
        self.transition_count = 0;
        self.rollback_stack.clear();
        self.notifications.clear();
        proof {
            assert(final(self)@ =~= EngineView {
                current: old(self)@.initial,
                history: Seq::<State>::empty(),
                log: Seq::<Event>::empty(),
                count: 0,
                rollback: Seq::<State>::empty(),
                notices: Seq::<NoticeModel>::empty(),
                ..old(self)@
            });
        }
    }
}

/// Processing is deterministic: equal engine snapshots fed equal events
/// move to equal snapshots and return equal results.
pub proof fn lemma_step_deterministic(m1: EngineView, m2: EngineView, e1: Event, e2: Event)
    requires
        m1 == m2,
        e1 == e2,
    ensures
        step_view(m1, e1) == step_view(m2, e2),
        step_result(m1, e1) == step_result(m2, e2),
{
}

/// No partial commit: whenever processing rejects an event, the engine
/// snapshot is exactly what it was — state, history, log, counter,
/// rollback stack and notices included.
pub proof fn lemma_no_partial_commit(m: EngineView, e: Event)
    requires
        step_result(m, e) is Err,
    ensures
        step_view(m, e) == m,
{
}

/// Invariant safety: after every successful transition, every registered
/// invariant accepts the state the engine landed in.
pub proof fn lemma_invariant_safety(m: EngineView, e: Event)
    requires
        step_result(m, e) is Ok,
    ensures
        invariants_hold(m.invariants, step_view(m, e).current),
{
}

/// History bound: processing never grows the history beyond the
/// configured capacity, whatever the transition count.
pub proof fn lemma_history_bound(m: EngineView, e: Event)
    requires
        m.history.len() <= m.capacity,
    ensures
        step_view(m, e).history.len() <= m.capacity,
{
}

/// The configuration is immutable: processing an event never changes the
/// transition table, the guard registry, the invariant list, the hook
/// lists, the history capacity or the initial state.
pub proof fn lemma_config_immutable(m: EngineView, e: Event)
    ensures
        step_view(m, e).transitions == m.transitions,
        step_view(m, e).guards == m.guards,
        step_view(m, e).invariants == m.invariants,
        step_view(m, e).pre_hooks == m.pre_hooks,
        step_view(m, e).post_hooks == m.post_hooks,
        step_view(m, e).capacity == m.capacity,
        step_view(m, e).initial == m.initial,
{
}

/// Guard ordering, first half: the winning entry is enabled, and every
/// entry registered before it is not — resolution honours registration
/// order exactly; when no entry wins, none is enabled.
pub proof fn lemma_first_enabled_minimal(m: EngineView, e: Event)
    ensures
        match first_enabled(m, e) {
            Some(k) => {
                &&& 0 <= k < m.transitions.len()
                &&& enabled_at(m, e, k)
                &&& forall|j: int| 0 <= j < k ==> !enabled_at(m, e, j)
            },
            None => forall|j: int| 0 <= j < m.transitions.len() ==> !enabled_at(m, e, j),
        },
{
    lemma_first_enabled_from_minimal(m, e, 0);
}

proof fn lemma_first_enabled_from_minimal(m: EngineView, e: Event, i: int)
    ensures
        match first_enabled_from(m, e, i) {
            Some(k) => {
                &&& i <= k < m.transitions.len()
                &&& enabled_at(m, e, k)
                &&& forall|j: int| i <= j < k ==> !enabled_at(m, e, j)
            },
            None => forall|j: int| i <= j < m.transitions.len() ==> !enabled_at(m, e, j),
        },
    decreases m.transitions.len() - i,
{
    if i >= m.transitions.len() {
    } else if enabled_at(m, e, i) {
    } else {
        lemma_first_enabled_from_minimal(m, e, i + 1);
    }
}

proof fn lemma_first_enabled_from_equiv(m1: EngineView, m2: EngineView, e: Event, i: int)
    requires
        m1.current == m2.current,
        m1.transitions == m2.transitions,
        forall|n: Seq<char>| lookup_guard(m1.guards, n) == lookup_guard(m2.guards, n),
    ensures
        first_enabled_from(m1, e, i) == first_enabled_from(m2, e, i),
    decreases m1.transitions.len() - i,
{
    if i >= m1.transitions.len() {
    } else {
        assert(enabled_at(m1, e, i) == enabled_at(m2, e, i)) by {
            match m1.transitions[i].guard {
                None => {},
                Some(name) => {
                    assert(lookup_guard(m1.guards, name) == lookup_guard(m2.guards, name));
                },
            }
        }
        lemma_first_enabled_from_equiv(m1, m2, e, i + 1);
    }
}

/// Guard ordering, second half: the outcome of processing depends on the
/// guard registry only through what each name resolves to — two engines
/// that agree on the table, the current state, the invariants and on
/// every name's resolution resolve and answer identically, whatever order
/// their guards were registered in.
pub proof fn lemma_guard_registration_order_irrelevant(
    m1: EngineView,
    m2: EngineView,
    e: Event,
)
    requires
        m1.current == m2.current,
        m1.transitions == m2.transitions,
        m1.invariants == m2.invariants,
        forall|n: Seq<char>| lookup_guard(m1.guards, n) == lookup_guard(m2.guards, n),
    ensures
        first_enabled(m1, e) == first_enabled(m2, e),
        step_result(m1, e) == step_result(m2, e),
{
    lemma_first_enabled_from_equiv(m1, m2, e, 0);
}

} // verus!
