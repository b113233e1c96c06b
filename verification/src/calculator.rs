//! A calculator that rounds its results to a fixed number of decimal places.

use vstd::prelude::*;

verus! {

/// A calculator configured with the number of decimal places to keep.
#[derive(Debug, Clone, PartialEq, Eq, Structural)]
pub struct Calculator {
    precision: u32,
}

impl Calculator {
    /// The number of decimal places this calculator keeps.
    pub closed spec fn spec_precision(&self) -> u32 {
        self.precision
    }

    /// Creates a calculator that keeps `precision` decimal places.
    pub fn new(precision: u32) -> (calc: Calculator)
        ensures
            calc.spec_precision() == precision,
    {
        Calculator { precision }
    }

    /// Returns the number of decimal places this calculator keeps.
    #[verifier::when_used_as_spec(spec_precision)]
    pub fn precision(&self) -> (p: u32)
        ensures
            p == self.spec_precision(),
    {
        self.precision
    }
}

} // verus!
