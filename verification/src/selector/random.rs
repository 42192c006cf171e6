//! Selection of any member, each with the same chance.

use crate::error::EvolutionError;
use crate::random::RandomSource;
use crate::selector::Selector;
use vstd::prelude::*;

verus! {

/// Chooses any member of the population.
#[derive(Debug, Clone, Copy, PartialEq, Eq, Structural)]
pub struct Random;

impl<I> Selector<I> for Random {
    open spec fn allows(&self, population: Seq<I>, outcome: Result<int, EvolutionError>) -> bool {
        match outcome {
            Ok(i) => 0 <= i < population.len(),
            Err(e) => population.len() == 0 && e == EvolutionError::EmptyCollection,
        }
    }

    fn select<'pop>(&self, population: &'pop Vec<I>, rng: &mut RandomSource) -> (out: Result<
        &'pop I,
        EvolutionError,
    >) {
        match rng.pick(population.as_slice()) {
            None => Err(EvolutionError::EmptyCollection),
            Some(member) => {
                proof {
                    let i = choose|i: int| 0 <= i < population.len() && population[i] == *member;
                    assert(self.allows(population@, Ok(i)));
                }
                Ok(member)
            },
        }
    }
}

} // verus!
