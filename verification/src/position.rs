//! Dynamic position state shared by margined instruments.
use vstd::prelude::*;

verus! {

/// Fixed-point accrued funding amount.
#[derive(Debug, Clone, Copy, PartialEq, Eq, Structural)]
pub struct Funding(pub i64);

impl Default for Funding {
    fn default() -> (f: Self)
        ensures
            f.0 == 0,
    {
        Funding(0)
    }
}

/// Margin state for margined instruments.
#[derive(Debug, Clone, Copy, PartialEq, Eq, Structural)]
pub struct MarginState {
    /// Initial margin requirement.
    pub initial: i64,
    /// Maintenance margin requirement.
    pub maintenance: i64,
}

} // verus!
