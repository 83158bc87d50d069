//! Exact rates.
use vstd::prelude::*;

verus! {

/// A rate as an exact fraction, in Hz.
#[derive(Clone, Copy, Debug, PartialEq, Eq, Structural)]
pub struct Ratio {
    pub num: u64,
    pub den: u64,
}

impl Ratio {
    /// Nothing at all, as zero over one.
    pub open spec fn zero() -> Self {
        Ratio { num: 0, den: 1 }
    }
}

} // verus!
