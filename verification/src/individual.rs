//! An individual: a genome together with the results of evaluating it.

use crate::test_results::CaseRanked;
use crate::test_results::Ranked;
use crate::test_results::TestResults;
use vstd::prelude::*;

verus! {

/// A genome and the results it was given when it was made.
#[derive(Debug, Clone, PartialEq, Eq)]
pub struct Individual<G, R> {
    pub genome: G,
    pub test_results: TestResults<R>,
}

impl<G, R> Individual<G, R> {
    /// The individual with this genome and these results.
    pub fn new(genome: G, test_results: TestResults<R>) -> (individual: Self)
        ensures
            individual.genome == genome,
            individual.test_results == test_results,
    {
        Individual { genome, test_results }
    }

    /// The genome.
    pub fn genome(&self) -> (genome: &G)
        ensures
            *genome == self.genome,
    {
        &self.genome
    }

    /// The results.
    pub fn test_results(&self) -> (results: &TestResults<R>)
        ensures
            *results == self.test_results,
    {
        &self.test_results
    }
}

impl<G, R: Ranked> Ranked for Individual<G, R> {
    open spec fn merit(&self) -> int {
        self.test_results.merit()
    }

    fn at_least(&self, other: &Self) -> (b: bool) {
        self.test_results.at_least(&other.test_results)
    }
}

impl<G, R: Ranked> CaseRanked for Individual<G, R> {
    open spec fn case_merits(&self) -> Seq<int> {
        self.test_results.case_merits()
    }

    fn case_count(&self) -> (n: usize) {
        self.test_results.case_count()
    }

    fn case_at_least(&self, case: usize, other: &Self) -> (b: bool) {
        self.test_results.case_at_least(case, &other.test_results)
    }
}

} // verus!
