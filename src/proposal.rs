//! The Hastings factor of each move, as an integer count.
//!
//! An insertion from a state of `n` flip times draws two times from a density
//! over `[0, beta)^2`; a removal picks two of the present positions. The ratio
//! of the two proposal densities is therefore `beta^2 / c` for an insertion
//! and `c / beta^2` for a removal, where `c` is the count computed here.
use crate::moves::MoveType;
use vstd::prelude::*;

verus! {

/// The count `c` of the proposal ratio for a move of kind `m` from a state of
/// `two_l` flip times: `4` for an insertion into the empty state and for a
/// removal from a state of two, `(n + 2)(n + 1)` for any other insertion and
/// `n(n - 1)` for any other removal.
pub open spec fn proposal_count_of(two_l: nat, m: MoveType) -> nat {
    match m {
        MoveType::Add => if two_l == 0 {
            4
        } else {
            ((two_l + 2) * (two_l + 1)) as nat
        },
        MoveType::Remove => if two_l == 2 {
            4
        } else {
            (two_l * (two_l - 1)) as nat
        },
    }
}

/// The largest state size whose insertion count `(n + 2)(n + 1)` fits in a
/// `u64`.
pub const MAX_COUNTED_LEN: u64 = 4294967294;

/// Whether the move can be made and its count fits the machine: a removal
/// needs at least two flip times.
pub open spec fn proposal_count_defined(two_l: nat, m: MoveType) -> bool {
    &&& (m == MoveType::Remove ==> two_l >= 2)
    &&& two_l <= MAX_COUNTED_LEN
}

/// The count `c` of the proposal ratio: the ratio is `beta^2 / c` for
/// `MoveType::Add` and `c / beta^2` for `MoveType::Remove`, where `two_l` is
/// the number of flip times before the move.
pub fn proposal_count(two_l: u64, move_type: MoveType) -> (r: u64)
    requires
        proposal_count_defined(two_l as nat, move_type),
    ensures
        r == proposal_count_of(two_l as nat, move_type),
        r > 0,
{
    let ghost n = two_l as int;
    assert(n + 2 <= (n + 2) * (n + 1) <= u64::MAX) by (nonlinear_arith)
        requires
            0 <= n <= 4294967294,
    ;
    assert(n * (n - 1) <= (n + 2) * (n + 1)) by (nonlinear_arith)
        requires
            n >= 0,
    ;
    match move_type {
        MoveType::Add => if two_l == 0 {
            4
        } else {
            assert((two_l + 2) * (two_l + 1) > 0) by (nonlinear_arith);
            (two_l + 2) * (two_l + 1)
        },
        MoveType::Remove => if two_l == 2 {
            4
        } else {
            assert(two_l * (two_l - 1) > 0) by (nonlinear_arith)
                requires
                    two_l >= 3,
            ;
            two_l * (two_l - 1)
        },
    }
}

/// Detailed balance of the proposals: the insertion from `n` flip times and
/// the removal from `n + 2` flip times have the same count, so their proposal
/// ratios are each other's inverse.
pub proof fn lemma_proposal_counts_balance(n: nat)
    ensures
        proposal_count_of(n, MoveType::Add) == proposal_count_of(n + 2, MoveType::Remove),
{
    assert((n + 2) * ((n + 2) - 1) == (n + 2) * (n + 1)) by (nonlinear_arith);
}

/// Every count of a move that can be made is positive, so every proposal
/// ratio is finite and positive for a positive `beta`.
pub proof fn lemma_proposal_count_positive(two_l: nat, m: MoveType)
    requires
        m == MoveType::Remove ==> two_l >= 2,
    ensures
        proposal_count_of(two_l, m) > 0,
{
    assert((two_l + 2) * (two_l + 1) > 0) by (nonlinear_arith);
    if two_l >= 3 {
        assert(two_l * (two_l - 1) > 0) by (nonlinear_arith)
            requires
                two_l >= 3,
        ;
    }
}

} // verus!
