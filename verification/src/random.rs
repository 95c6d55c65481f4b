//! The random source: weighted index sampling and raw draws from the `rand`
//! crate. Nothing here is a function of its arguments alone, so the
//! contracts state only what holds of every draw.
use vstd::prelude::*;
use rand::distributions::{WeightedError, WeightedIndex};

verus! {

/// A weighted index of the `rand` crate over `u128` weights, wide enough
/// for the sum of any list of `u64` weights. Its bounds name traits that
/// Verus cannot take, so the value is kept behind this struct.
#[verifier::external_body]
pub struct Weighted {
    inner: WeightedIndex<u128>,
}

/// `rand::distributions::WeightedError`, why no weighted index was made:
/// carried through as it is.
#[verifier::external_type_specification]
#[verifier::external_body]
pub struct ExWeightedError(WeightedError);

/// The weights that a weighted index was made with, in their order.
pub uninterp spec fn index_weights(dist: Weighted) -> Seq<u128>;

/// The sum of a sequence of weights.
pub open spec fn total_weight(weights: Seq<u64>) -> int
    decreases weights.len(),
{
    if weights.len() == 0 {
        0
    } else {
        total_weight(weights.drop_last()) + weights.last()
    }
}

/// The sum of a sequence of wide weights.
pub open spec fn total_wide(weights: Seq<u128>) -> int
    decreases weights.len(),
{
    if weights.len() == 0 {
        0
    } else {
        total_wide(weights.drop_last()) + weights.last()
    }
}

/// The same weights, each as a `u128`.
pub open spec fn widened(weights: Seq<u64>) -> Seq<u128> {
    Seq::new(weights.len(), |i: int| weights[i] as u128)
}

/// Calls `rand::distributions::WeightedIndex::new`, which adds the weights up
/// and fails on an empty list and on a total of zero.
#[verifier::external_body]
pub(crate) fn weighted_index(weights: &Vec<u128>) -> (made: Result<Weighted, WeightedError>)
    requires
        total_wide(weights@) <= u128::MAX,
    ensures
        made.is_ok() == (weights@.len() > 0 && total_wide(weights@) > 0),
        made matches Ok(dist) ==> index_weights(dist) == weights@,
{
    WeightedIndex::new(weights).map(|inner| Weighted { inner })
}

/// Widening keeps the sum, and the sum of a list of `u64` weights is at most
/// its length times the greatest `u64`.
pub proof fn widened_total(weights: Seq<u64>)
    ensures
        total_wide(widened(weights)) == total_weight(weights),
        0 <= total_weight(weights) <= weights.len() * 0xffff_ffff_ffff_ffff,
    decreases weights.len(),
{
    if weights.len() > 0 {
        let init = weights.drop_last();
        widened_total(init);
        assert(widened(weights).drop_last() =~= widened(init));
        assert(weights.len() * 0xffff_ffff_ffff_ffff == init.len() * 0xffff_ffff_ffff_ffff
            + 0xffff_ffff_ffff_ffff) by (nonlinear_arith)
            requires
                weights.len() == init.len() + 1,
        ;
    } else {
        assert(widened(weights) =~= Seq::<u128>::empty());
    }
}

/// The weighted index over `weights`: there is one for every list, however
/// long and however heavy, but the empty list and a list of zeros.
pub(crate) fn distribution(weights: &Vec<u64>) -> (made: Option<Weighted>)
    ensures
        made is Some <==> weights@.len() > 0 && total_weight(weights@) > 0,
        made matches Some(dist) ==> index_weights(dist) == widened(weights@),
{
    let mut wide: Vec<u128> = Vec::new();
    let mut i: usize = 0;
    while i < weights.len()
        invariant
            i <= weights@.len(),
            wide@.len() == i,
            forall|k: int| 0 <= k < i ==> wide@[k] == weights@[k] as u128,
        decreases weights.len() - i,
    {
        wide.push(weights[i] as u128);
        i += 1;
    }
    proof {
        assert(wide@ =~= widened(weights@));
        widened_total(weights@);
        assert(weights@.len() * 0xffff_ffff_ffff_ffff <= 0xffff_ffff_ffff_ffff * 0xffff_ffff_ffff_ffff)
            by (nonlinear_arith)
            requires
                weights@.len() <= 0xffff_ffff_ffff_ffff,
        ;
    }
    match weighted_index(&wide) {
        Ok(dist) => Some(dist),
        Err(_) => None,
    }
}

/// Calls `WeightedIndex::sample` with the thread's generator: an index into
/// the weights, never one whose weight is zero.
#[verifier::external_body]
pub(crate) fn sample_index(dist: &Weighted) -> (index: usize)
    ensures
        index < index_weights(*dist).len(),
        index_weights(*dist)[index as int] > 0,
{
    rand::distributions::Distribution::sample(&dist.inner, &mut rand::thread_rng())
}

/// Calls `RngCore::next_u32` on the thread's generator.
#[verifier::external_body]
pub(crate) fn random_u32() -> u32 {
    rand::RngCore::next_u32(&mut rand::thread_rng())
}

/// Calls `IteratorRandom::choose` on the moves with the thread's generator:
/// one of them, and `None` only for an empty list.
#[verifier::external_body]
pub(crate) fn choose_move(moves: &Vec<chess::ChessMove>) -> (chosen: Option<chess::ChessMove>)
    ensures
        chosen is None <==> moves@.len() == 0,
        chosen matches Some(mv) ==> moves@.contains(mv),
{
    rand::seq::IteratorRandom::choose(moves.iter().copied(), &mut rand::thread_rng())
}

/// The total of two weights is their sum.
pub proof fn total_weight_of_pair(a: u64, b: u64)
    ensures
        total_weight(seq![a, b]) == a + b,
{
    let s = seq![a, b];
    assert(s.drop_last() =~= seq![a]);
    assert(seq![a].drop_last() =~= Seq::<u64>::empty());
    reveal_with_fuel(total_weight, 3);
}

} // verus!
