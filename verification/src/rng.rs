//! The random choices the game makes, drawn from the thread-local generator
//! of the `rand` crate.
use vstd::prelude::*;
use rand::Rng;
use rand::seq::SliceRandom;

verus! {

/// A number drawn from `low .. high` by `rand::Rng::random_range` on the
/// thread-local generator. The contract claims only that it lies in the
/// range, which `rand` documents; which number comes is left open.
#[verifier::external_body]
pub(crate) fn random_range_i32(low: i32, high: i32) -> (res: i32)
    requires
        low < high,
    ensures
        low <= res < high,
{
    rand::rng().random_range(low..high)
}

/// A draw that is true with chance `numerator / denominator`, by
/// `rand::Rng::random_ratio` on the thread-local generator. The contract
/// claims what `rand` documents: it is true where the two are equal and
/// false where the numerator is 0; other outcomes are left open. `rand`
/// panics where the denominator is 0 or below the numerator, which the
/// precondition leaves out.
#[verifier::external_body]
pub(crate) fn random_ratio(numerator: u32, denominator: u32) -> (res: bool)
    requires
        0 < denominator,
        numerator <= denominator,
    ensures
        numerator == denominator ==> res,
        numerator == 0 ==> !res,
{
    rand::rng().random_ratio(numerator, denominator)
}

/// Shuffles the list in place by `rand::seq::SliceRandom::shuffle` on the
/// thread-local generator. The contract claims that the result is a
/// permutation of the input; which one is left open.
#[verifier::external_body]
pub(crate) fn shuffle_indices(v: &mut Vec<usize>)
    ensures
        final(v)@.to_multiset() == old(v)@.to_multiset(),
        final(v)@.len() == old(v)@.len(),
{
    v.shuffle(&mut rand::rng());
}

} // verus!
