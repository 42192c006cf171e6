//! The source of randomness that selection and variation draw from: a
//! seedable generator of the `rand` crate, reached through a handful of
//! calls whose contracts are taken on trust.

use rand::rngs::StdRng;
use rand::seq::SliceRandom;
use rand::Rng;
use rand::SeedableRng;
use vstd::prelude::*;

verus! {

/// The generator `rand::rngs::StdRng`. Nothing inside it is visible to the
/// proofs: a value of it is only carried to the calls below.
#[verifier::external_type_specification]
#[verifier::external_body]
pub struct ExStdRng(rand::rngs::StdRng);

/// Calls `rand::SeedableRng::seed_from_u64` on `rand::rngs::StdRng`.
/// Nothing is claimed of the generator that comes back.
#[verifier::external_body]
fn seeded(seed: u64) -> StdRng {
    StdRng::seed_from_u64(seed)
}

/// Calls `rand::Rng::gen_range` with the half-open range `0..bound`. That
/// call panics on an empty range, which `requires` leaves out; the value it
/// returns lies in the range.
#[verifier::external_body]
fn draw_below(rng: &mut StdRng, bound: usize) -> (r: usize)
    requires
        bound > 0,
    ensures
        r < bound,
{
    rng.gen_range(0..bound)
}

/// Calls `rand::Rng::gen` for a `bool`. Nothing is claimed of the result.
#[verifier::external_body]
fn draw_bool(rng: &mut StdRng) -> bool {
    rng.gen()
}

/// Calls `rand::seq::SliceRandom::shuffle` on the items. That function only
/// swaps elements of the slice, so afterwards the vector holds the same
/// items, each as often as before.
#[verifier::external_body]
fn shuffle_items(rng: &mut StdRng, items: &mut Vec<usize>)
    ensures
        final(items)@.to_multiset() == old(items)@.to_multiset(),
{
    items.shuffle(rng)
}

/// Calls `rand::seq::SliceRandom::choose` on the items. That function
/// returns `None` for an empty slice and otherwise a reference to one of the
/// elements.
#[verifier::external_body]
fn choose_item<'a, T>(rng: &mut StdRng, items: &'a [T]) -> (r: Option<&'a T>)
    ensures
        r is None <==> items@.len() == 0,
        r matches Some(item) ==> exists|i: int| 0 <= i < items@.len() && items@[i] == *item,
{
    items.choose(rng)
}

/// A sequentially advancing source of random draws.
pub struct RandomSource {
    rng: StdRng,
}

impl RandomSource {
    /// A source seeded with `seed`.
    pub fn from_seed(seed: u64) -> (source: Self) {
        RandomSource { rng: seeded(seed) }
    }

    /// A number below `bound`.
    pub fn below(&mut self, bound: usize) -> (r: usize)
        requires
            bound > 0,
        ensures
            r < bound,
    {
        draw_below(&mut self.rng, bound)
    }

    /// Either truth value.
    pub fn coin(&mut self) -> bool {
        draw_bool(&mut self.rng)
    }

    /// Puts `items` in a random order.
    pub fn shuffle(&mut self, items: &mut Vec<usize>)
        ensures
            final(items)@.to_multiset() == old(items)@.to_multiset(),
    {
        shuffle_items(&mut self.rng, items)
    }

    /// One of `items`, or `None` where there is none.
    pub fn pick<'a, T>(&mut self, items: &'a [T]) -> (r: Option<&'a T>)
        ensures
            r is None <==> items@.len() == 0,
            r matches Some(item) ==> exists|i: int| 0 <= i < items@.len() && items@[i] == *item,
    {
        choose_item(&mut self.rng, items)
    }
}

/// The seed of the random source for slot `task` of a step: the master seed
/// plus the number of the slot, wrapping around at the end of `u64`.
pub fn task_seed(master_seed: u64, task: usize) -> (seed: u64)
    ensures
        seed == (master_seed + task) % 0x1_0000_0000_0000_0000,
{
    master_seed.wrapping_add(task as u64)
}

} // verus!
