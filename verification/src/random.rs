//! The random choices of a prediction, each drawn from a generator that is
//! made for the one draw from a number: the same number gives the same
//! choice, so a prediction can be repeated.

use vstd::prelude::*;
use rand::rngs::StdRng;
use rand::seq::SliceRandom;
use rand::{Rng, SeedableRng};
use crate::combat_unit::CombatUnit;

verus! {

/// The order into which the generator seeded with `seed` puts `len` items:
/// position `i` of the result holds the item that stood at `seeded_order(len, seed)[i]`.
pub uninterp spec fn seeded_order(len: nat, seed: u64) -> Seq<int>;

/// The first 64 bits that the generator seeded with `seed` gives out.
pub uninterp spec fn seeded_word(seed: u64) -> u64;

/// A roster in the order that the seed gives.
pub open spec fn shuffled(units: Seq<CombatUnit>, seed: u64) -> Seq<CombatUnit> {
    Seq::new(units.len(), |i: int| units[seeded_order(units.len(), seed)[i]])
}

/// Shuffles a roster with `rand`'s `SliceRandom::shuffle`, driven by a
/// `StdRng` that `SeedableRng::seed_from_u64` makes from `seed`.
///
/// Trusted: the roster holds the same units afterwards, each moved to a
/// position that depends on nothing but the roster's length and the seed. The
/// shuffle swaps by position only, and draws its positions as 32-bit numbers
/// for rosters of this size, whatever the machine.
#[verifier::external_body]
pub(crate) fn shuffle_units(units: &mut Vec<CombatUnit>, seed: u64)
    requires
        old(units).len() <= 0xffff_ffff,
    ensures
        final(units)@.len() == old(units)@.len(),
        seeded_order(old(units)@.len(), seed).len() == old(units)@.len(),
        forall|i: int|
            0 <= i < old(units)@.len() ==> 0 <= #[trigger] seeded_order(old(units)@.len(), seed)[i]
                < old(units)@.len(),
        forall|i: int, j: int|
            0 <= i < j < old(units)@.len() ==> #[trigger] seeded_order(old(units)@.len(), seed)[i]
                != #[trigger] seeded_order(old(units)@.len(), seed)[j],
        forall|i: int|
            0 <= i < old(units)@.len() ==> #[trigger] final(units)@[i] == old(units)@[seeded_order(
                old(units)@.len(),
                seed,
            )[i]],
{
    let mut generator = StdRng::seed_from_u64(seed);
    units.shuffle(&mut generator);
}

/// `order` names every position of a roster of `len` units once.
pub open spec fn is_rearrangement(order: Seq<int>, len: nat) -> bool {
    &&& order.len() == len
    &&& forall|i: int| 0 <= i < len ==> 0 <= #[trigger] order[i] < len
    &&& forall|i: int, j: int| 0 <= i < j < len ==> #[trigger] order[i] != #[trigger] order[j]
}

/// Shuffles a roster: the same seed puts a roster of the same length into
/// the same order. The result holds the units of the roster, each once.
pub fn shuffle_roster(units: &mut Vec<CombatUnit>, seed: u64)
    requires
        old(units).len() <= 0xffff_ffff,
    ensures
        final(units)@ == shuffled(old(units)@, seed),
        is_rearrangement(seeded_order(old(units)@.len(), seed), old(units)@.len()),
{
    shuffle_units(units, seed);
    assert(units@ =~= shuffled(old(units)@, seed));
}

/// Draws 64 bits with `rand`'s `Rng::gen`, from a `StdRng` that
/// `SeedableRng::seed_from_u64` makes from `seed`.
///
/// Trusted: the bits depend on nothing but the seed.
#[verifier::external_body]
pub(crate) fn draw_word(seed: u64) -> (word: u64)
    ensures
        word == seeded_word(seed),
{
    StdRng::seed_from_u64(seed).gen::<u64>()
}

/// Draws a seed with `rand::random`, from the generator of the running thread.
///
/// Trusted: nothing; any number may come back.
#[verifier::external_body]
pub(crate) fn fresh_seed() -> (seed: u64) {
    rand::random::<u64>()
}

/// The seed that follows `seed`.
pub open spec fn next_seed(seed: u64) -> u64 {
    if seed == u64::MAX {
        0
    } else {
        (seed + 1) as u64
    }
}

/// The seed that follows `seed`.
pub fn advance_seed(seed: u64) -> (next: u64)
    ensures
        next == next_seed(seed),
{
    if seed == u64::MAX {
        0
    } else {
        seed + 1
    }
}

} // verus!
