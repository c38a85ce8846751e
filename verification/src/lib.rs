//! A workflow engine built around a guarded finite-state machine: a
//! declarative builder producing a validated transition table, a runtime that
//! resolves ambiguous transitions via named guards, enforces safety
//! invariants before committing a state change, keeps a bounded audit
//! history, and recovers via checkpoint rollback. Smaller collaborators (a
//! checked-arithmetic calculator, quality-gate checkers, installation
//! validation) live alongside the core.

pub mod calculator;
pub mod cancel;
pub mod certainty;
pub mod chars;
pub mod engine;
pub mod fsm;
pub mod pmat;
pub mod protocol;
pub mod quality;
pub mod refactor;
pub mod testing;
pub mod text;
