//! The two moves of the sampler and what the library does of them.
use crate::stream::choose_index;
use vstd::prelude::*;

verus! {

/// The kind of a proposed move.
#[derive(Clone, Copy, Debug, PartialEq, Eq, Structural)]
pub enum MoveType {
    /// Insert two new flip times.
    Add,
    /// Delete two of the present flip times.
    Remove,
}

/// The move that the selection rule picks for a state of `two_l` flip times,
/// where `below_p_add` tells whether the selection draw fell below the
/// probability of an insertion (the draw is taken only for a non-empty state).
pub open spec fn selected_move(two_l: nat, below_p_add: bool) -> MoveType {
    if two_l == 0 || below_p_add {
        MoveType::Add
    } else {
        MoveType::Remove
    }
}

/// Whether a state of `two_l` flip times needs a selection draw at all: an
/// empty state always grows.
pub fn needs_selection_draw(two_l: usize) -> (r: bool)
    ensures
        r == (two_l > 0),
{
    two_l > 0
}

/// Picks the move for a state of `two_l` flip times; `below_p_add` is the
/// outcome of the selection draw and is ignored for an empty state.
pub fn choose_move(two_l: usize, below_p_add: bool) -> (r: MoveType)
    ensures
        r == selected_move(two_l as nat, below_p_add),
        r == MoveType::Remove ==> two_l >= 1,
{
    if two_l == 0 || below_p_add {
        MoveType::Add
    } else {
        MoveType::Remove
    }
}

/// `s` with the element at `i` taken out, then the element at `j` of what
/// is left.
pub open spec fn without_two<T>(s: Seq<T>, i: int, j: int) -> Seq<T> {
    s.remove(i).remove(j)
}

/// Whether `t` arises from `s` by deleting two of its positions, the second
/// counted after the first deletion.
pub open spec fn is_pair_removal<T>(s: Seq<T>, t: Seq<T>) -> bool {
    exists|i: int, j: int|
        0 <= i < s.len() && 0 <= j < s.len() - 1 && t == #[trigger] without_two(s, i, j)
}

/// The removal move: deletes two positions drawn uniformly without
/// replacement from `state`, the second drawn among the positions left after
/// the first deletion.
pub fn remove_pair<T>(state: &mut Vec<T>, rng: &mut rand_pcg::Pcg64)
    requires
        old(state).len() >= 2,
    ensures
        final(state).len() == old(state).len() - 2,
        is_pair_removal(old(state)@, final(state)@),
{
    let ghost s0 = state@;
    let n = state.len();
    let i = match choose_index(rng, n) {
        Some(i) => i,
        None => 0,
    };
    state.remove(i);
    let j = match choose_index(rng, n - 1) {
        Some(j) => j,
        None => 0,
    };
    state.remove(j);
    assert(state@ == without_two(s0, i as int, j as int));
}

} // verus!
