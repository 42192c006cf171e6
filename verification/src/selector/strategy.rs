//! The primitive selectors as one type, so that selectors of different
//! kinds can stand in one weighted list.

use crate::error::EvolutionError;
use crate::random::RandomSource;
use crate::selector::best::Best;
use crate::selector::lexicase::Lexicase;
use crate::selector::random::Random;
use crate::selector::tournament::Tournament;
use crate::selector::Selector;
use crate::test_results::CaseRanked;
use crate::test_results::Ranked;
use vstd::prelude::*;

verus! {

/// Any one of the primitive selectors.
#[derive(Debug, Clone, Copy, PartialEq, Eq, Structural)]
pub enum Strategy {
    Best(Best),
    Random(Random),
    Tournament(Tournament),
    Lexicase(Lexicase),
}

impl<I: Ranked + CaseRanked> Selector<I> for Strategy {
    open spec fn allows(&self, population: Seq<I>, outcome: Result<int, EvolutionError>) -> bool {
        match self {
            Strategy::Best(selector) => selector.allows(population, outcome),
            Strategy::Random(selector) => selector.allows(population, outcome),
            Strategy::Tournament(selector) => selector.allows(population, outcome),
            Strategy::Lexicase(selector) => selector.allows(population, outcome),
        }
    }

    fn select<'pop>(&self, population: &'pop Vec<I>, rng: &mut RandomSource) -> (out: Result<
        &'pop I,
        EvolutionError,
    >) {
        let out = match self {
            Strategy::Best(selector) => selector.select(population, rng),
            Strategy::Random(selector) => selector.select(population, rng),
            Strategy::Tournament(selector) => selector.select(population, rng),
            Strategy::Lexicase(selector) => selector.select(population, rng),
        };
        proof {
            if let Ok(chosen) = out {
                let i = match self {
                    Strategy::Best(selector) => choose|i: int|
                        0 <= i < population.len() && population[i] == *chosen
                            && #[trigger] selector.allows(population@, Ok(i)),
                    Strategy::Random(selector) => choose|i: int|
                        0 <= i < population.len() && population[i] == *chosen
                            && #[trigger] selector.allows(population@, Ok(i)),
                    Strategy::Tournament(selector) => choose|i: int|
                        0 <= i < population.len() && population[i] == *chosen
                            && #[trigger] selector.allows(population@, Ok(i)),
                    Strategy::Lexicase(selector) => choose|i: int|
                        0 <= i < population.len() && population[i] == *chosen
                            && #[trigger] selector.allows(population@, Ok(i)),
                };
                assert(self.allows(population@, Ok(i)));
            }
        }
        out
    }
}

} // verus!
