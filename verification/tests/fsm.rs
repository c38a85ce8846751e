use fsm_core::fsm::{create_basic_fsm, Event, State, FSM};

#[test]
fn test_basic_fsm_transitions() {
    let mut fsm = create_basic_fsm();
    assert_eq!(fsm.current_state(), State::Init);

    assert!(fsm.process_event(Event::Start).is_ok());
    assert_eq!(fsm.current_state(), State::Running);

    assert!(fsm.process_event(Event::Pause).is_ok());
    assert_eq!(fsm.current_state(), State::Paused);

    assert!(fsm.process_event(Event::Resume).is_ok());
    assert_eq!(fsm.current_state(), State::Running);

    assert!(fsm.process_event(Event::Finish).is_ok());
    assert_eq!(fsm.current_state(), State::Complete);

    assert_eq!(fsm.transition_count(), 4);
}

#[test]
fn test_invalid_transition() {
    let mut fsm = create_basic_fsm();
    assert!(fsm.process_event(Event::Pause).is_err());
}

#[test]
fn test_transition_performance() {
    let mut fsm = create_basic_fsm();
    let _ = fsm.process_event(Event::Start);

    if let Some(duration) = fsm.last_transition_duration() {
        assert!(duration.as_micros() < 100);
    }
}

#[test]
fn test_rejection_reports_state_and_event() {
    let mut fsm = create_basic_fsm();
    let err = fsm.process_event(Event::Finish).unwrap_err();
    assert_eq!(err, "No valid transition from Init with event Finish");
    assert_eq!(fsm.current_state(), State::Init);
    assert_eq!(fsm.transition_count(), 0);
}

#[test]
fn test_fail_event_matches_by_shape() {
    let mut fsm = create_basic_fsm();
    assert!(fsm.process_event(Event::Start).is_ok());
    let got = fsm.process_event(Event::Fail(String::from("disk full"))).unwrap();
    assert_eq!(got, State::Error);
}

#[test]
fn test_composite_states_match_on_outer_tag() {
    let mut fsm = FSM::new(State::Composite(Box::new(State::Init)))
        .add_transition(
            State::Composite(Box::new(State::Running)),
            State::Complete,
            Event::Finish,
        );
    let got = fsm.process_event(Event::Finish).unwrap();
    assert_eq!(got, State::Complete);
}

#[test]
fn test_parse_complete_label() {
    let mut fsm = FSM::new(State::Init);
    let err = fsm.process_event(Event::ParseComplete(42)).unwrap_err();
    assert_eq!(err, "No valid transition from Init with event ParseComplete(42)");
}
