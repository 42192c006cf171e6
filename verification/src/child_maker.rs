//! Child makers: whatever makes one new individual out of a population and
//! a selector.

use crate::error::EvolutionError;
use crate::operator::Operator;
use crate::random::RandomSource;
use vstd::prelude::*;

pub mod two_point_xo_mutate;

verus! {

/// A way of making one offspring from a population.
pub trait ChildMaker<I, S> {
    /// Whether making a child from `population` with `selector` may end in
    /// `outcome`, whatever the random draws turn out to be.
    spec fn may_make(&self, population: &Vec<I>, selector: &S, outcome: Result<I, EvolutionError>) -> bool;

    /// One new individual, or the first failure on the way to it.
    fn make_child(&self, rng: &mut RandomSource, population: &Vec<I>, selector: &S) -> (out: Result<
        I,
        EvolutionError,
    >)
        ensures
            self.may_make(population, selector, out),
    ;
}

/// A pipeline of operators, from a population to one individual, as a child
/// maker. The pipeline selects by itself: the selector that the child maker
/// is handed is not asked.
#[derive(Debug, Clone)]
pub struct Pipeline<Op> {
    pub stages: Op,
}

impl<Op> Pipeline<Op> {
    /// The child maker that runs `stages`.
    pub fn new(stages: Op) -> (pipeline: Self)
        ensures
            pipeline.stages == stages,
    {
        Pipeline { stages }
    }
}

impl<I, S, Op> ChildMaker<I, S> for Pipeline<Op> where
    Op: for <'pop>Operator<&'pop Vec<I>, Output = I>,
 {
    open spec fn may_make(
        &self,
        population: &Vec<I>,
        selector: &S,
        outcome: Result<I, EvolutionError>,
    ) -> bool {
        self.stages.yields(population, outcome)
    }

    fn make_child(&self, rng: &mut RandomSource, population: &Vec<I>, selector: &S) -> (out: Result<
        I,
        EvolutionError,
    >) {
        self.stages.apply(population, rng)
    }
}

} // verus!
