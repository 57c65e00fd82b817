//! Continuous-time Monte Carlo sampling of a two-level system in a
//! transverse and a longitudinal field.
//!
//! The library holds the parts of the sampler that decide and count: the
//! choice of move, the Hastings factor of each move, the removal of a pair of
//! flip times, and the schedule of burn-in, thinning and collection. The
//! statistical weight and the acceptance test work on real numbers and are
//! computed by the host around it.
use vstd::prelude::*;

pub mod moves;
pub mod proposal;
pub mod sampler;
pub mod stream;

verus! {

/// Hands its argument back unchanged: a smoke test for the host binding.
pub fn joe_test(n: u64) -> (r: u64)
    ensures
        r == n,
{
    n
}

} // verus!
