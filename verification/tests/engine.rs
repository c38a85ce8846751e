use fsm_core::engine::{FsmBuilder, FsmError, GuardPred, HookPhase, InvariantPred};
use fsm_core::fsm::{Event, State};

fn workflow() -> FsmBuilder {
    FsmBuilder::new()
        .initial_state(State::Init)
        .transition(State::Init, State::Processing, Event::Start)
        .transition(State::Processing, State::Complete, Event::Finish)
        .register_invariant(InvariantPred::NotState(State::Error))
}

#[test]
fn test_workflow_scenario() {
    let mut fsm = workflow().build().unwrap();
    assert_eq!(fsm.process_event(Event::Start).unwrap(), State::Processing);
    assert_eq!(fsm.process_event(Event::Finish).unwrap(), State::Complete);
    assert_eq!(fsm.transition_count(), 2);
    let history: Vec<State> = fsm.history().iter().cloned().collect();
    assert_eq!(history, vec![State::Init, State::Processing]);

    let mut fresh = workflow().build().unwrap();
    match fresh.process_event(Event::Finish) {
        Err(FsmError::NoValidTransition { from, event }) => {
            assert_eq!(from, State::Init);
            assert!(matches!(event, Event::Finish));
        }
        other => panic!("expected NoValidTransition, got {:?}", other),
    }
    assert_eq!(fresh.current_state(), State::Init);
    assert_eq!(fresh.transition_count(), 0);
}

#[test]
fn test_missing_initial_state() {
    let built = FsmBuilder::new()
        .transition(State::Init, State::Complete, Event::Finish)
        .build();
    assert!(matches!(built, Err(FsmError::MissingInitialState)));
}

#[test]
fn test_initial_state_last_write_wins() {
    let fsm = FsmBuilder::new()
        .initial_state(State::Running)
        .initial_state(State::Init)
        .build()
        .unwrap();
    assert_eq!(fsm.current_state(), State::Init);
    assert_eq!(fsm.initial_state(), State::Init);
}

#[test]
fn test_determinism() {
    let mut a = workflow().build().unwrap();
    let mut b = workflow().build().unwrap();
    assert_eq!(
        a.process_event(Event::Start).unwrap(),
        b.process_event(Event::Start).unwrap()
    );
    assert_eq!(a.current_state(), b.current_state());
    assert_eq!(a.transition_count(), b.transition_count());
}

#[test]
fn test_no_partial_commit() {
    let mut fsm = workflow().build().unwrap();
    fsm.process_event(Event::Start).unwrap();
    let state = fsm.current_state();
    let count = fsm.transition_count();
    let history_len = fsm.history().len();
    let log_len = fsm.event_log().len();

    assert!(fsm.process_event(Event::Pause).is_err());

    assert_eq!(fsm.current_state(), state);
    assert_eq!(fsm.transition_count(), count);
    assert_eq!(fsm.history().len(), history_len);
    assert_eq!(fsm.event_log().len(), log_len);
}

#[test]
fn test_invariant_rejection() {
    let mut fsm = FsmBuilder::new()
        .initial_state(State::Init)
        .transition(State::Init, State::Error, Event::Fail(String::from("boom")))
        .register_invariant(InvariantPred::NotState(State::Error))
        .build()
        .unwrap();
    match fsm.process_event(Event::Fail(String::from("boom"))) {
        Err(FsmError::InvariantViolation { candidate_state }) => {
            assert_eq!(candidate_state, State::Error);
        }
        other => panic!("expected InvariantViolation, got {:?}", other),
    }
    assert_eq!(fsm.current_state(), State::Init);
    assert_eq!(fsm.transition_count(), 0);
}

#[test]
fn test_history_bound() {
    let mut fsm = FsmBuilder::new()
        .initial_state(State::Running)
        .transition(State::Running, State::Paused, Event::Pause)
        .transition(State::Paused, State::Running, Event::Resume)
        .history_capacity(2)
        .build()
        .unwrap();
    for _ in 0..3 {
        fsm.process_event(Event::Pause).unwrap();
        fsm.process_event(Event::Resume).unwrap();
    }
    assert_eq!(fsm.transition_count(), 6);
    assert_eq!(fsm.history().len(), 2);
    let history: Vec<State> = fsm.history().iter().cloned().collect();
    assert_eq!(history, vec![State::Running, State::Paused]);
}

#[test]
fn test_rollback_convergence() {
    let mut fsm = workflow().build().unwrap();
    fsm.process_event(Event::Start).unwrap();
    fsm.process_event(Event::Finish).unwrap();
    assert_eq!(fsm.rollback_depth(), 2);

    fsm.rollback();
    assert_eq!(fsm.current_state(), State::Init);
    assert_eq!(fsm.rollback_depth(), 0);

    fsm.rollback();
    assert_eq!(fsm.current_state(), State::Init);
    assert_eq!(fsm.rollback_depth(), 0);
}

#[test]
fn test_guard_ordering() {
    let builder = FsmBuilder::new()
        .initial_state(State::Init)
        .register_guard(String::from("small"), GuardPred::CountBelow(10))
        .register_guard(String::from("any"), GuardPred::Always)
        .guarded_transition(State::Init, State::Processing, Event::ParseComplete(0), String::from("small"))
        .guarded_transition(State::Init, State::Complete, Event::ParseComplete(0), String::from("any"));

    let mut small_first = builder.build().unwrap();
    assert_eq!(small_first.process_event(Event::ParseComplete(3)).unwrap(), State::Processing);

    let mut small_fails = FsmBuilder::new()
        .initial_state(State::Init)
        .register_guard(String::from("small"), GuardPred::CountBelow(10))
        .register_guard(String::from("any"), GuardPred::Always)
        .guarded_transition(State::Init, State::Processing, Event::ParseComplete(0), String::from("small"))
        .guarded_transition(State::Init, State::Complete, Event::ParseComplete(0), String::from("any"))
        .build()
        .unwrap();
    assert_eq!(small_fails.process_event(Event::ParseComplete(50)).unwrap(), State::Complete);
}

#[test]
fn test_guard_registration_order_irrelevant() {
    let mut registered_ab = FsmBuilder::new()
        .initial_state(State::Init)
        .register_guard(String::from("small"), GuardPred::CountBelow(10))
        .register_guard(String::from("any"), GuardPred::Always)
        .guarded_transition(State::Init, State::Processing, Event::ParseComplete(0), String::from("small"))
        .guarded_transition(State::Init, State::Complete, Event::ParseComplete(0), String::from("any"))
        .build()
        .unwrap();
    let mut registered_ba = FsmBuilder::new()
        .initial_state(State::Init)
        .register_guard(String::from("any"), GuardPred::Always)
        .register_guard(String::from("small"), GuardPred::CountBelow(10))
        .guarded_transition(State::Init, State::Processing, Event::ParseComplete(0), String::from("small"))
        .guarded_transition(State::Init, State::Complete, Event::ParseComplete(0), String::from("any"))
        .build()
        .unwrap();

    assert_eq!(
        registered_ab.process_event(Event::ParseComplete(3)).unwrap(),
        registered_ba.process_event(Event::ParseComplete(3)).unwrap()
    );
    registered_ab.reset();
    registered_ba.reset();
    assert_eq!(
        registered_ab.process_event(Event::ParseComplete(50)).unwrap(),
        registered_ba.process_event(Event::ParseComplete(50)).unwrap()
    );
}

#[test]
fn test_guard_rejection_falls_through() {
    let mut fsm = FsmBuilder::new()
        .initial_state(State::Init)
        .register_guard(String::from("big"), GuardPred::CountAtLeast(100))
        .guarded_transition(State::Init, State::Complete, Event::ParseComplete(0), String::from("big"))
        .build()
        .unwrap();
    assert!(fsm.process_event(Event::ParseComplete(5)).is_err());
    assert_eq!(fsm.process_event(Event::ParseComplete(150)).unwrap(), State::Complete);
}

#[test]
fn test_dangling_guard_is_inert() {
    let mut fsm = FsmBuilder::new()
        .initial_state(State::Init)
        .guarded_transition(State::Init, State::Complete, Event::Start, String::from("ghost"))
        .build()
        .unwrap();
    assert!(matches!(
        fsm.process_event(Event::Start),
        Err(FsmError::NoValidTransition { .. })
    ));
}

#[test]
fn test_guard_name_first_registration_wins() {
    let mut fsm = FsmBuilder::new()
        .initial_state(State::Init)
        .register_guard(String::from("gate"), GuardPred::Never)
        .register_guard(String::from("gate"), GuardPred::Always)
        .guarded_transition(State::Init, State::Complete, Event::Start, String::from("gate"))
        .build()
        .unwrap();
    assert!(matches!(
        fsm.process_event(Event::Start),
        Err(FsmError::NoValidTransition { .. })
    ));
}

#[test]
fn test_history_capacity_zero() {
    let mut fsm = FsmBuilder::new()
        .initial_state(State::Running)
        .transition(State::Running, State::Paused, Event::Pause)
        .transition(State::Paused, State::Running, Event::Resume)
        .history_capacity(0)
        .build()
        .unwrap();
    fsm.process_event(Event::Pause).unwrap();
    fsm.process_event(Event::Resume).unwrap();
    assert_eq!(fsm.history().len(), 0);
    assert_eq!(fsm.transition_count(), 2);
}

#[test]
fn test_hooks_record_in_order() {
    let mut fsm = FsmBuilder::new()
        .initial_state(State::Init)
        .transition(State::Init, State::Processing, Event::Start)
        .pre_hook(String::from("audit"))
        .pre_hook(String::from("metrics"))
        .post_hook(String::from("audit"))
        .build()
        .unwrap();
    fsm.process_event(Event::Start).unwrap();
    let notices = fsm.take_notifications();
    assert_eq!(notices.len(), 3);
    assert_eq!(notices[0].hook, "audit");
    assert_eq!(notices[0].state, State::Init);
    assert_eq!(notices[0].phase, HookPhase::Before);
    assert_eq!(notices[1].hook, "metrics");
    assert_eq!(notices[1].phase, HookPhase::Before);
    assert_eq!(notices[2].hook, "audit");
    assert_eq!(notices[2].state, State::Processing);
    assert_eq!(notices[2].phase, HookPhase::After);
    assert_eq!(fsm.notifications().len(), 0);
}

#[test]
fn test_reset() {
    let mut fsm = workflow().build().unwrap();
    fsm.process_event(Event::Start).unwrap();
    fsm.process_event(Event::Finish).unwrap();
    fsm.reset();
    assert_eq!(fsm.current_state(), State::Init);
    assert_eq!(fsm.transition_count(), 0);
    assert_eq!(fsm.history().len(), 0);
    assert_eq!(fsm.event_log().len(), 0);
    assert_eq!(fsm.rollback_depth(), 0);
    assert_eq!(fsm.process_event(Event::Start).unwrap(), State::Processing);
}

#[test]
fn test_event_log_records_accepted_events() {
    let mut fsm = workflow().build().unwrap();
    fsm.process_event(Event::Start).unwrap();
    let _ = fsm.process_event(Event::Pause);
    assert_eq!(fsm.event_log().len(), 1);
    assert!(matches!(fsm.event_log()[0], Event::Start));
}

#[test]
fn test_previous_state_for_resume() {
    let mut fsm = workflow().build().unwrap();
    assert_eq!(fsm.previous_state(), State::Init);
    fsm.process_event(Event::Start).unwrap();
    assert_eq!(fsm.previous_state(), State::Init);
    fsm.process_event(Event::Finish).unwrap();
    assert_eq!(fsm.previous_state(), State::Processing);
}

#[test]
fn test_rollback_delay_is_stored() {
    let fsm = workflow().rollback_delay_ms(25).build().unwrap();
    assert_eq!(fsm.rollback_delay_ms(), 25);
}
