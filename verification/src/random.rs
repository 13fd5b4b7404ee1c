//! The two draws that the game makes from the thread's random generator.

use rand::Rng;
use rand::seq::SliceRandom;
use vstd::prelude::*;

verus! {

/// Calls `rand::Rng::gen_range` on `rand::thread_rng()` with the range
/// `0..bound`. The range must not be empty, or the call panics; the number
/// that comes back lies in the range.
#[verifier::external_body]
pub(crate) fn random_below(bound: u32) -> (n: u32)
    requires
        bound > 0,
    ensures
        n < bound,
{
    rand::thread_rng().gen_range(0..bound)
}

/// Calls `rand::seq::SliceRandom::choose` on the items with
/// `rand::thread_rng()`. Nothing comes back exactly when there is no item;
/// otherwise what comes back is one of the items.
#[verifier::external_body]
pub(crate) fn pick_random<T: Copy>(items: &Vec<T>) -> (picked: Option<T>)
    ensures
        picked is None <==> items@.len() == 0,
        picked matches Some(item) ==> items@.contains(item),
{
    items.choose(&mut rand::thread_rng()).copied()
}

} // verus!
