//! The random stream of a run: PCG-64 from `rand_pcg`.
use rand::seq::IteratorRandom;
use vstd::prelude::*;

verus! {

/// The generator of a run, owned by that run alone.
#[verifier::external_type_specification]
#[verifier::external_body]
pub struct ExLcg128Xsl64(rand_pcg::Lcg128Xsl64);

/// Relies on `IteratorRandom::choose` over the range `0..n`: that range has
/// an exact size, so the call yields `None` for `n == 0`, `Some(0)` for
/// `n == 1`, and otherwise the element at a position drawn by
/// `random_range(..n)`, which lies below `n`.
#[verifier::external_body]
pub(crate) fn choose_index(rng: &mut rand_pcg::Pcg64, n: usize) -> (r: Option<usize>)
    ensures
        r.is_some() <==> n > 0,
        r matches Some(i) ==> i < n,
{
    (0..n).choose(rng)
}

} // verus!
