use rand::rngs::StdRng;
use rand::seq::SliceRandom;
use rand::Rng;
use vstd::prelude::*;

use crate::models::Card;

verus! {

/// The seeded random generator of `rand`, carried through as an opaque value.
#[verifier::external_type_specification]
#[verifier::external_body]
pub struct ExStdRng(StdRng);

/// `Rng::gen_range(0..n)` of `rand` on `rng`: a number drawn below `n`, and the generator
/// advances. The contract claims only that the number is below `n`; which number comes out
/// is left unsaid (it depends on the generator's state). `n` must be positive, as
/// `gen_range` panics on an empty range.
#[verifier::external_body]
pub(crate) fn random_below(rng: &mut StdRng, n: usize) -> (r: usize)
    requires
        n > 0,
    ensures
        r < n,
{
    rng.gen_range(0..n)
}

/// `SliceRandom::shuffle` of `rand` on a list of cards. Its source only swaps cards in place,
/// so the contract claims that the same cards come out, each as many times; their new order is
/// drawn from the generator and left unsaid.
#[verifier::external_body]
pub(crate) fn shuffle_cards(rng: &mut StdRng, cards: &mut Vec<Card>)
    ensures
        final(cards)@.to_multiset() == old(cards)@.to_multiset(),
{
    cards.shuffle(rng)
}

} // verus!
