//! The multi-phase refactoring workflow's own state space, and the thin
//! agent shells that carry workflow state.

use vstd::prelude::*;
use vstd::string::StringExecFns;

verus! {

/// The phases of the refactoring workflow, in their intended order.
#[derive(Debug, Clone, Copy, PartialEq, Eq, Structural)]
pub enum RefactorState {
    Init,
    Parsing,
    Analyzing,
    Planning,
    Refactoring,
    Testing,
    Validating,
    Complete,
    Error,
}

/// A refactoring workflow resting in one phase.
pub struct RefactorFsm {
    state: RefactorState,
}

impl View for RefactorFsm {
    type V = RefactorState;

    closed spec fn view(&self) -> RefactorState {
        self.state
    }
}

impl RefactorFsm {
    /// A workflow at its first phase.
    pub fn new() -> (r: RefactorFsm)
        ensures
            r@ == RefactorState::Init,
    {
        RefactorFsm { state: RefactorState::Init }
    }

    /// The phase the workflow rests in.
    pub fn state(&self) -> (r: RefactorState)
        ensures
            r == self@,
    {
        self.state
    }
}

/// An analysis agent carrying its phase as text.
pub struct AnalysisFsm {
    state: String,
}

impl View for AnalysisFsm {
    type V = Seq<char>;

    closed spec fn view(&self) -> Seq<char> {
        self.state@
    }
}

impl AnalysisFsm {
    /// An agent at its first phase.
    pub fn new() -> (r: AnalysisFsm)
        ensures
            r@ == "init"@,
    {
        AnalysisFsm { state: String::from_str("init") }
    }

    /// The phase the agent rests in.
    pub fn state(&self) -> (r: &String)
        ensures
            r@ == self@,
    {
        &self.state
    }
}

} // verus!
