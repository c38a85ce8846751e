//! A small calculator with checked arithmetic: every operation either
//! returns the mathematically exact result or reports why it could not
//! (overflow, division by zero), and a bounded history records the
//! operations that succeeded.

use vstd::prelude::*;
use std::collections::VecDeque;
use vstd::string::StringExecFns;

verus! {

/// Why an arithmetic operation was rejected.
#[derive(Debug, Clone, Copy, PartialEq, Eq, Structural)]
pub enum CalculatorError {
    DivisionByZero,
    Overflow,
    InvalidOperation,
}

impl CalculatorError {
    /// The text used when a calculator records an error state.
    pub open spec fn message_spec(&self) -> Seq<char> {
        match self {
            CalculatorError::DivisionByZero => "Division by zero"@,
            CalculatorError::Overflow => "Overflow occurred"@,
            CalculatorError::InvalidOperation => "Invalid operation"@,
        }
    }

    /// Short human-readable description of the error.
    pub fn message(&self) -> (r: String)
        ensures
            r@ == self.message_spec(),
    {
        match self {
            CalculatorError::DivisionByZero => String::from_str("Division by zero"),
            CalculatorError::Overflow => String::from_str("Overflow occurred"),
            CalculatorError::InvalidOperation => String::from_str("Invalid operation"),
        }
    }
}

/// One arithmetic request over two signed operands.
#[derive(Debug, Clone, Copy, PartialEq, Eq, Structural)]
pub enum Operation {
    Add(i64, i64),
    Subtract(i64, i64),
    Multiply(i64, i64),
    Divide(i64, i64),
}

/// The exact outcome of an operation: the mathematical result when it fits
/// in `i64`, otherwise the error the calculator reports.
pub open spec fn op_value(op: Operation) -> Result<i64, CalculatorError> {
    match op {
        Operation::Add(a, b) => match a.checked_add(b) {
            Some(v) => Ok(v),
            None => Err(CalculatorError::Overflow),
        },
        Operation::Subtract(a, b) => match a.checked_sub(b) {
            Some(v) => Ok(v),
            None => Err(CalculatorError::Overflow),
        },
        Operation::Multiply(a, b) => match a.checked_mul(b) {
            Some(v) => Ok(v),
            None => Err(CalculatorError::Overflow),
        },
        Operation::Divide(a, b) => if b == 0 {
            Err(CalculatorError::DivisionByZero)
        } else {
            match a.checked_div(b) {
                Some(v) => Ok(v),
                None => Err(CalculatorError::Overflow),
            }
        },
    }
}

impl Operation {
    /// Evaluates the operation with checked arithmetic.
    pub fn execute(&self) -> (r: Result<i64, CalculatorError>)
        ensures
            r == op_value(*self),
    {
        match self {
            Operation::Add(a, b) => match a.checked_add(*b) {
                Some(v) => Ok(v),
                None => Err(CalculatorError::Overflow),
            },
            Operation::Subtract(a, b) => match a.checked_sub(*b) {
                Some(v) => Ok(v),
                None => Err(CalculatorError::Overflow),
            },
            Operation::Multiply(a, b) => match a.checked_mul(*b) {
                Some(v) => Ok(v),
                None => Err(CalculatorError::Overflow),
            },
            Operation::Divide(a, b) => {
                if *b == 0 {
                    Err(CalculatorError::DivisionByZero)
                } else {
                    match a.checked_div(*b) {
                        Some(v) => Ok(v),
                        None => Err(CalculatorError::Overflow),
                    }
                }
            },
        }
    }
}

/// What the calculator is currently doing; an error state carries the text
/// of the error that put it there.
#[derive(Debug, Clone, PartialEq)]
pub enum CalculatorState {
    Ready,
    Computing,
    Error(String),
}

/// Holds when `s` is the error state carrying exactly the text `msg`.
pub open spec fn state_is_error(s: CalculatorState, msg: Seq<char>) -> bool {
    match s {
        CalculatorState::Error(m) => m@ == msg,
        _ => false,
    }
}

/// The abstract value of a calculator: its state, the recorded operations
/// (oldest first) and the history bound.
#[verifier::ext_equal]
pub struct CalculatorView {
    pub state: CalculatorState,
    pub history: Seq<Operation>,
    pub max_history: nat,
}

/// A bounded append: when the record is full, the oldest entry leaves.
pub open spec fn push_bounded_op(h: Seq<Operation>, op: Operation, max: nat) -> Seq<Operation> {
    if h.len() >= max && h.len() > 0 {
        h.skip(1).push(op)
    } else {
        h.push(op)
    }
}

/// Relates a calculator before and after executing `op` with result `r`:
/// a success is recorded in the history and leaves the calculator ready;
/// a failure leaves the history untouched and parks the calculator in an
/// error state carrying the error's text.
pub open spec fn calc_step(
    pre: CalculatorView,
    post: CalculatorView,
    op: Operation,
    r: Result<i64, CalculatorError>,
) -> bool {
    &&& r == op_value(op)
    &&& post.max_history == pre.max_history
    &&& match r {
        Ok(_) => {
            &&& post.state == CalculatorState::Ready
            &&& post.history == push_bounded_op(pre.history, op, pre.max_history)
        },
        Err(e) => {
            &&& state_is_error(post.state, e.message_spec())
            &&& post.history == pre.history
        },
    }
}

/// A calculator: checked arithmetic plus a bounded history of the
/// operations that succeeded.
#[derive(Debug, Clone)]
pub struct Calculator {
    state: CalculatorState,
    history: VecDeque<Operation>,
    max_history: usize,
}

impl View for Calculator {
    type V = CalculatorView;

    closed spec fn view(&self) -> CalculatorView {
        CalculatorView {
            state: self.state,
            history: self.history@,
            max_history: self.max_history as nat,
        }
    }
}

impl Calculator {
    /// A ready calculator remembering up to 100 operations.
    pub fn new() -> (r: Calculator)
        ensures
            r@.state == CalculatorState::Ready,
            r@.history == Seq::<Operation>::empty(),
            r@.max_history == 100,
    {
        Calculator {
            state: CalculatorState::Ready,
            history: VecDeque::with_capacity(100),
            max_history: 100,
        }
    }

    /// A ready calculator remembering up to `max_history` operations.
    pub fn with_max_history(max_history: usize) -> (r: Calculator)
        ensures
            r@.state == CalculatorState::Ready,
            r@.history == Seq::<Operation>::empty(),
            r@.max_history == max_history,
    {
        Calculator {
            state: CalculatorState::Ready,
            history: VecDeque::with_capacity(max_history),
            max_history,
        }
    }

    pub fn add(&mut self, a: i64, b: i64) -> (r: Result<i64, CalculatorError>)
        ensures
            calc_step(old(self)@, final(self)@, Operation::Add(a, b), r),
    {
        self.execute_operation(Operation::Add(a, b))
    }

    pub fn subtract(&mut self, a: i64, b: i64) -> (r: Result<i64, CalculatorError>)
        ensures
            calc_step(old(self)@, final(self)@, Operation::Subtract(a, b), r),
    {
        self.execute_operation(Operation::Subtract(a, b))
    }

    pub fn multiply(&mut self, a: i64, b: i64) -> (r: Result<i64, CalculatorError>)
        ensures
            calc_step(old(self)@, final(self)@, Operation::Multiply(a, b), r),
    {
        self.execute_operation(Operation::Multiply(a, b))
    }

    pub fn divide(&mut self, a: i64, b: i64) -> (r: Result<i64, CalculatorError>)
        ensures
            calc_step(old(self)@, final(self)@, Operation::Divide(a, b), r),
    {
        self.execute_operation(Operation::Divide(a, b))
    }

    fn execute_operation(&mut self, op: Operation) -> (r: Result<i64, CalculatorError>)
        ensures
            calc_step(old(self)@, final(self)@, op, r),
    {
        self.state = CalculatorState::Computing;

        match op.execute() {
            Ok(result) => {
                self.add_to_history(op);
                self.state = CalculatorState::Ready;
                Ok(result)
            },
            Err(e) => {
                self.state = CalculatorState::Error(e.message());
                Err(e)
            },
        }
    }

    fn add_to_history(&mut self, op: Operation)
        ensures
            final(self)@.history == push_bounded_op(
                old(self)@.history,
                op,
                old(self)@.max_history,
            ),
            final(self)@.state == old(self)@.state,
            final(self)@.max_history == old(self)@.max_history,
    {
        if self.history.len() >= self.max_history {
            self.history.pop_front();
            proof {
                if old(self)@.history.len() > 0 {
                    assert(self.history@ =~= old(self)@.history.skip(1));
                }
            }
        }
        self.history.push_back(op);
    }

    /// The operations that succeeded, oldest first.
    pub fn history(&self) -> (r: &VecDeque<Operation>)
        ensures
            r@ == self@.history,
    {
        &self.history
    }

    /// The calculator's current state.
    pub fn state(&self) -> (r: &CalculatorState)
        ensures
            *r == self@.state,
    {
        &self.state
    }

    /// Forgets the recorded operations; the state is kept.
    pub fn clear_history(&mut self)
        ensures
            final(self)@.history == Seq::<Operation>::empty(),
            final(self)@.state == old(self)@.state,
            final(self)@.max_history == old(self)@.max_history,
    {
        self.history.clear();
    }

    /// Returns the calculator to its ready state and forgets the history.
    pub fn reset(&mut self)
        ensures
            final(self)@.history == Seq::<Operation>::empty(),
            final(self)@.state == CalculatorState::Ready,
            final(self)@.max_history == old(self)@.max_history,
    {
        self.state = CalculatorState::Ready;
        self.history.clear();
    }
}

impl Default for Calculator {
    fn default() -> (r: Calculator)
        ensures
            r@.state == CalculatorState::Ready,
            r@.history == Seq::<Operation>::empty(),
            r@.max_history == 100,
    {
        Calculator::new()
    }
}

} // verus!
