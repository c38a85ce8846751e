//! A plain value container used by randomized tests; generation lives
//! with the test harness.

use vstd::prelude::*;

verus! {

/// One generated test value.
#[derive(Debug, Clone, Copy, PartialEq, Eq, Structural)]
pub struct TestData {
    pub value: i32,
}

} // verus!
