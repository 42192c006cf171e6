//! Selection: choosing one individual of a population under some notion of
//! "better".

use crate::error::EvolutionError;
use crate::random::RandomSource;
use vstd::prelude::*;

pub mod best;
pub mod lexicase;
pub mod random;
pub mod strategy;
pub mod tournament;
pub mod weighted;

verus! {

/// A strategy that chooses one member of a population.
pub trait Selector<I> {
    /// Whether, on this population, the strategy may choose the member at
    /// position `outcome` (for `Ok`) or fail with the error `outcome` (for
    /// `Err`), whatever its random draws turn out to be.
    spec fn allows(&self, population: Seq<I>, outcome: Result<int, EvolutionError>) -> bool;

    /// Chooses one member of `population`. The member returned stands at a
    /// position that `allows` admits, and so does an error.
    fn select<'pop>(&self, population: &'pop Vec<I>, rng: &mut RandomSource) -> (out: Result<
        &'pop I,
        EvolutionError,
    >)
        ensures
            match out {
                Ok(chosen) => exists|i: int|
                    0 <= i < population.len() && population[i] == *chosen && #[trigger] self.allows(
                        population@,
                        Ok(i),
                    ),
                Err(e) => self.allows(population@, Err(e)),
            },
    ;
}

/// A reference to a selector selects as the selector does.
impl<'a, I, S: Selector<I>> Selector<I> for &'a S {
    open spec fn allows(&self, population: Seq<I>, outcome: Result<int, EvolutionError>) -> bool {
        (**self).allows(population, outcome)
    }

    fn select<'pop>(&self, population: &'pop Vec<I>, rng: &mut RandomSource) -> (out: Result<
        &'pop I,
        EvolutionError,
    >) {
        let out = (**self).select(population, rng);
        proof {
            if let Ok(chosen) = out {
                let i = choose|i: int|
                    0 <= i < population.len() && population[i] == *chosen && #[trigger] (**self).allows(
                        population@,
                        Ok(i),
                    );
                assert(self.allows(population@, Ok(i)));
            }
        }
        out
    }
}

/// Whether `selector` allows the choice of a member of `population` that
/// equals `chosen`.
pub open spec fn may_choose<I, S: Selector<I>>(selector: &S, population: Seq<I>, chosen: I) -> bool {
    exists|i: int|
        0 <= i < population.len() && population[i] == chosen && #[trigger] selector.allows(
            population,
            Ok(i),
        )
}

} // verus!
