//! Two-dimensional execution cost: computation time and proof size.
use vstd::prelude::*;

verus! {

/// Saturating addition on `u64`, as a mathematical function.
pub open spec fn sat_add(a: u64, b: u64) -> u64 {
    if a as int + b as int > u64::MAX as int {
        u64::MAX
    } else {
        (a + b) as u64
    }
}

/// The cost of an operation: computation time and proof size, each bounded
/// by `u64::MAX`.
#[derive(Clone, Copy, Debug, PartialEq, Eq, Structural)]
pub struct Weight {
    pub ref_time: u64,
    pub proof_size: u64,
}

impl Weight {
    /// The largest representable cost: used to say that the rest of the
    /// block's capacity is consumed.
    pub open spec fn max_spec() -> Weight {
        Weight { ref_time: u64::MAX, proof_size: u64::MAX }
    }

    /// Component-wise saturating sum.
    pub open spec fn sat_add_spec(self, rhs: Weight) -> Weight {
        Weight {
            ref_time: sat_add(self.ref_time, rhs.ref_time),
            proof_size: sat_add(self.proof_size, rhs.proof_size),
        }
    }

    pub fn from_parts(ref_time: u64, proof_size: u64) -> (r: Weight)
        ensures
            r.ref_time == ref_time,
            r.proof_size == proof_size,
    {
        Weight { ref_time, proof_size }
    }

    pub fn zero() -> (r: Weight)
        ensures
            r.ref_time == 0,
            r.proof_size == 0,
    {
        Weight { ref_time: 0, proof_size: 0 }
    }

    pub fn max_value() -> (r: Weight)
        ensures
            r == Weight::max_spec(),
    {
        Weight { ref_time: u64::MAX, proof_size: u64::MAX }
    }

    /// Adds `rhs` component by component, stopping at `u64::MAX` instead of
    /// overflowing.
    pub fn saturating_add(self, rhs: Weight) -> (r: Weight)
        ensures
            r == self.sat_add_spec(rhs),
    {
        Weight {
            ref_time: self.ref_time.saturating_add(rhs.ref_time),
            proof_size: self.proof_size.saturating_add(rhs.proof_size),
        }
    }

    /// Whether every component of `self` is at its maximum.
    pub fn is_max(&self) -> (r: bool)
        ensures
            r == (*self == Weight::max_spec()),
    {
        self.ref_time == u64::MAX && self.proof_size == u64::MAX
    }
}

} // verus!
