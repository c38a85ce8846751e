use fsm_core::cancel::{CancelToken, CancelWaiter};
use fsm_core::chars::{first_line_trimmed, text_contains};
use fsm_core::certainty::{DomainScope, MappingScope, SymbolicProver, VerifiedKernel};
use fsm_core::engine::{FsmBuilder, FsmError, InvariantPred};
use fsm_core::fsm::{Event, State};
use fsm_core::pmat::{PmatValidator, PmatInfo};
use fsm_core::protocol::{
    server_error_code, PmcpError, ERROR_INTERNAL, ERROR_METHOD_NOT_FOUND, ERROR_SERVER_MAX,
    JSONRPC_VERSION,
};
use fsm_core::refactor::{AnalysisFsm, RefactorFsm, RefactorState};
use fsm_core::testing::TestData;
use fsm_core::text::decimal_string;

#[test]
fn test_symbolic_prover() {
    let prover = SymbolicProver::new();
    assert!(prover.prove("identity"));
    assert!(prover.prove("excluded_middle"));
    assert!(!prover.prove("unknown_complex_statement_that_is_very_long"));
    assert!(prover.prove("short"));
}

#[test]
fn test_structure_holders() {
    let _scope = MappingScope::new(100);
    let _kernel = VerifiedKernel::new();
    let _domain = DomainScope::new(1000);
}

#[test]
fn test_validate_installation() {
    let validator = PmatValidator::new();
    let info: PmatInfo = validator.validate_installation(String::from("pmat 2.3.0"), true);
    assert_eq!(info.version, "pmat 2.3.0");
    assert!(info.mcp_enabled);
    assert_eq!(
        info.features,
        vec![
            String::from("complexity"),
            String::from("satd"),
            String::from("dead-code"),
            String::from("quality-gate"),
        ]
    );
}

#[test]
fn test_refactor_fsm() {
    let fsm = RefactorFsm::new();
    assert_eq!(fsm.state(), RefactorState::Init);
}

#[test]
fn test_analysis_fsm() {
    let fsm = AnalysisFsm::new();
    assert_eq!(fsm.state().as_str(), "init");
}

#[test]
fn test_test_data() {
    let data = TestData { value: -3 };
    assert_eq!(data.value, -3);
}

#[test]
fn test_protocol_constants() {
    assert_eq!(JSONRPC_VERSION, "2.0");
    assert_eq!(ERROR_METHOD_NOT_FOUND, -32601);
    let err = PmcpError::JsonRpc {
        code: ERROR_METHOD_NOT_FOUND,
        message: String::from("Method not found"),
    };
    assert!(matches!(err, PmcpError::JsonRpc { code: -32601, .. }));
    assert!(server_error_code(-32050));
    assert!(server_error_code(ERROR_SERVER_MAX));
    assert!(!server_error_code(ERROR_INTERNAL));
}

#[test]
fn test_text_helpers() {
    assert_eq!(first_line_trimmed("  pmat 2.3.0  \nextra"), "pmat 2.3.0");
    assert_eq!(first_line_trimmed(""), "");
    assert_eq!(first_line_trimmed("one-line"), "one-line");
    assert!(text_contains("complexity satd mcp", "mcp"));
    assert!(!text_contains("complexity satd", "mcp"));
}

#[test]
fn test_decimal_rendering() {
    assert_eq!(decimal_string(0), "0");
    assert_eq!(decimal_string(7), "7");
    assert_eq!(decimal_string(12345), "12345");
    assert_eq!(decimal_string(u64::MAX), "18446744073709551615");
}

#[test]
fn test_cancel_token_one_shot() {
    let mut token = CancelToken::new();
    assert!(!token.is_fired());
    token.fire();
    assert!(token.is_fired());
    token.fire();
    assert!(token.is_fired());

    let mut waiter = CancelWaiter::new();
    assert!(waiter.poll(&token));
    assert!(!waiter.poll(&token));

    let mut other = CancelWaiter::new();
    assert!(other.poll(&token));
}

#[test]
fn test_cancellation_race() {
    let mut fsm = FsmBuilder::new()
        .initial_state(State::Processing)
        .transition(State::Processing, State::Complete, Event::Finish)
        .register_invariant(InvariantPred::NotState(State::Error))
        .build()
        .unwrap();

    match fsm.resolve_race(Event::Finish, true) {
        Err(FsmError::Cancelled) => {}
        other => panic!("expected cancellation, got {:?}", other),
    }
    assert_eq!(fsm.current_state(), State::Cancelled);

    fsm.cancel();
    assert_eq!(fsm.current_state(), State::Cancelled);
}

#[test]
fn test_completion_wins_race() {
    let mut fsm = FsmBuilder::new()
        .initial_state(State::Processing)
        .transition(State::Processing, State::Complete, Event::Finish)
        .build()
        .unwrap();
    assert_eq!(fsm.resolve_race(Event::Finish, false).unwrap(), State::Complete);
    assert_eq!(fsm.current_state(), State::Complete);
}
