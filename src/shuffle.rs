use crate::item::Item;
use rand::seq::SliceRandom;
use vstd::prelude::*;

verus! {

/// The seedable random source that drives every shuffle of the engine.
#[verifier::external_type_specification]
#[verifier::external_body]
pub struct ExStdRng(rand::rngs::StdRng);

/// Relies on rand's `SliceRandom::shuffle`: it reorders the slice in place by
/// swaps only, so the result holds the same items, each as often as before.
#[verifier::external_body]
pub(crate) fn shuffle_items(items: &mut Vec<Item>, rng: &mut rand::rngs::StdRng)
    ensures
        final(items)@.to_multiset() == old(items)@.to_multiset(),
{
    items.shuffle(rng);
}

} // verus!
