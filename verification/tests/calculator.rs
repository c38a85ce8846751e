use fsm_core::calculator::{Calculator, CalculatorError, CalculatorState, Operation};

#[test]
fn test_add() {
    let mut calc = Calculator::new();
    assert_eq!(calc.add(2, 3), Ok(5));
    assert_eq!(calc.add(-5, 10), Ok(5));
    assert_eq!(calc.add(0, 0), Ok(0));
}

#[test]
fn test_subtract() {
    let mut calc = Calculator::new();
    assert_eq!(calc.subtract(10, 3), Ok(7));
    assert_eq!(calc.subtract(-5, -10), Ok(5));
    assert_eq!(calc.subtract(0, 0), Ok(0));
}

#[test]
fn test_multiply() {
    let mut calc = Calculator::new();
    assert_eq!(calc.multiply(3, 4), Ok(12));
    assert_eq!(calc.multiply(-3, 4), Ok(-12));
    assert_eq!(calc.multiply(0, 100), Ok(0));
}

#[test]
fn test_divide() {
    let mut calc = Calculator::new();
    assert_eq!(calc.divide(10, 2), Ok(5));
    assert_eq!(calc.divide(-10, 2), Ok(-5));
    assert!(calc.divide(10, 0).is_err());
}

#[test]
fn test_overflow() {
    let mut calc = Calculator::new();
    assert!(calc.add(i64::MAX, 1).is_err());
    assert!(calc.multiply(i64::MAX, 2).is_err());
}

#[test]
fn test_history() {
    let mut calc = Calculator::with_max_history(3);
    calc.add(1, 2).unwrap();
    calc.subtract(5, 3).unwrap();
    calc.multiply(2, 3).unwrap();
    calc.divide(10, 2).unwrap();

    assert_eq!(calc.history().len(), 3);
}

#[test]
fn test_history_keeps_newest() {
    let mut calc = Calculator::with_max_history(2);
    calc.add(1, 1).unwrap();
    calc.add(2, 2).unwrap();
    calc.add(3, 3).unwrap();
    assert_eq!(calc.history().len(), 2);
    assert_eq!(calc.history()[0], Operation::Add(2, 2));
    assert_eq!(calc.history()[1], Operation::Add(3, 3));
}

#[test]
fn test_divide_by_zero_error_state() {
    let mut calc = Calculator::new();
    assert_eq!(calc.divide(1, 0), Err(CalculatorError::DivisionByZero));
    match calc.state() {
        CalculatorState::Error(msg) => assert_eq!(msg, "Division by zero"),
        other => panic!("expected an error state, got {:?}", other),
    }
    assert_eq!(calc.history().len(), 0);
}

#[test]
fn test_reset_and_clear() {
    let mut calc = Calculator::new();
    calc.add(1, 1).unwrap();
    calc.clear_history();
    assert_eq!(calc.history().len(), 0);
    let _ = calc.divide(1, 0);
    calc.reset();
    assert_eq!(*calc.state(), CalculatorState::Ready);
    assert_eq!(calc.history().len(), 0);
}

#[test]
fn test_add_commutative_samples() {
    let mut calc1 = Calculator::new();
    let mut calc2 = Calculator::new();
    assert_eq!(calc1.add(17, -4), calc2.add(-4, 17));
    assert_eq!(calc1.add(i64::MAX, 1), calc2.add(1, i64::MAX));
}

#[test]
fn test_multiply_commutative_samples() {
    let mut calc1 = Calculator::new();
    let mut calc2 = Calculator::new();
    assert_eq!(calc1.multiply(-7, 9), calc2.multiply(9, -7));
}

#[test]
fn test_operation_execute() {
    assert_eq!(Operation::Add(2, 2).execute(), Ok(4));
    assert_eq!(Operation::Divide(9, 3).execute(), Ok(3));
    assert_eq!(Operation::Divide(9, 0).execute(), Err(CalculatorError::DivisionByZero));
    assert_eq!(
        Operation::Subtract(i64::MIN, 1).execute(),
        Err(CalculatorError::Overflow)
    );
    assert_eq!(
        Operation::Divide(i64::MIN, -1).execute(),
        Err(CalculatorError::Overflow)
    );
}
