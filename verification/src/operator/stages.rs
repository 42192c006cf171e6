//! The stages of the usual offspring pipeline: selection of a parent,
//! extraction of its genome, recombination, mutation and scoring.

use crate::error::EvolutionError;
use crate::individual::Individual;
use crate::operator::Finisher;
use crate::operator::Operator;
use crate::operator::Wrap;
use crate::random::RandomSource;
use crate::selector::may_choose;
use crate::selector::Selector;
use crate::test_results::TestResults;
use crate::test_results::TestResultsModel;
use vstd::prelude::*;

verus! {

/// A variation operator that perturbs one genome.
pub trait Mutator<G> {
    /// Whether mutating `genome` may end in `outcome`.
    spec fn may_mutate(&self, genome: G, outcome: Result<G, EvolutionError>) -> bool;

    /// A perturbed copy of `genome`, or the failure of the mutator.
    fn mutate(&self, genome: G, rng: &mut RandomSource) -> (out: Result<G, EvolutionError>)
        ensures
            self.may_mutate(genome, out),
    ;
}

/// A variation operator that makes one child genome of two parent genomes.
pub trait Recombinator<G> {
    /// Whether recombining `first` and `second` may end in `outcome`.
    spec fn may_recombine(&self, first: G, second: G, outcome: Result<G, EvolutionError>) -> bool;

    /// A child of `first` and `second`, or the failure of the recombinator.
    fn recombine(&self, first: G, second: G, rng: &mut RandomSource) -> (out: Result<
        G,
        EvolutionError,
    >)
        ensures
            self.may_recombine(first, second, out),
    ;
}

/// A fitness measure: the same genome always gets the same results, and no
/// random draw is made.
pub trait Scorer<G> {
    type Result;

    /// The results of `genome`.
    spec fn scored(&self, genome: &G) -> TestResultsModel<Self::Result>;

    /// The results of `genome`.
    fn score(&self, genome: &G) -> (out: TestResults<Self::Result>)
        ensures
            out@ == self.scored(genome),
    ;
}

/// The stage that selects one member of the population it is given.
#[derive(Debug, Clone)]
pub struct Select<S> {
    pub selector: S,
}

impl<S> Select<S> {
    /// The stage that selects with `selector`.
    pub fn new(selector: S) -> (stage: Self)
        ensures
            stage.selector == selector,
    {
        Select { selector }
    }
}

impl<'pop, I, S: Selector<I>> Operator<&'pop Vec<I>> for Select<S> {
    type Output = &'pop I;

    open spec fn yields(&self, input: &'pop Vec<I>, outcome: Result<&'pop I, EvolutionError>) -> bool {
        match outcome {
            Ok(chosen) => may_choose(&self.selector, input@, *chosen),
            Err(e) => self.selector.allows(input@, Err(e)),
        }
    }

    fn apply(&self, input: &'pop Vec<I>, rng: &mut RandomSource) -> (out: Result<
        &'pop I,
        EvolutionError,
    >) {
        self.selector.select(input, rng)
    }
}

/// The stage that hands out a copy of the genome of an individual.
#[derive(Debug, Clone, Copy, PartialEq, Eq, Structural)]
pub struct GenomeExtractor;

impl<'a, G: Clone, R> Operator<&'a Individual<G, R>> for GenomeExtractor {
    type Output = G;

    open spec fn yields(&self, input: &'a Individual<G, R>, outcome: Result<G, EvolutionError>) -> bool {
        outcome matches Ok(genome) && cloned(input.genome, genome)
    }

    fn apply(&self, input: &'a Individual<G, R>, rng: &mut RandomSource) -> (out: Result<
        G,
        EvolutionError,
    >) {
        Ok(input.genome.clone())
    }
}

/// The stage that recombines a pair of genomes into one.
#[derive(Debug, Clone)]
pub struct Recombine<C> {
    pub recombinator: C,
}

impl<C> Recombine<C> {
    /// The stage that recombines with `recombinator`.
    pub fn new(recombinator: C) -> (stage: Self)
        ensures
            stage.recombinator == recombinator,
    {
        Recombine { recombinator }
    }
}

impl<G, C: Recombinator<G>> Operator<(G, G)> for Recombine<C> {
    type Output = G;

    open spec fn yields(&self, input: (G, G), outcome: Result<G, EvolutionError>) -> bool {
        self.recombinator.may_recombine(input.0, input.1, outcome)
    }

    fn apply(&self, input: (G, G), rng: &mut RandomSource) -> (out: Result<G, EvolutionError>) {
        let (first, second) = input;
        self.recombinator.recombine(first, second, rng)
    }
}

/// The stage that mutates a genome.
#[derive(Debug, Clone)]
pub struct Mutate<M> {
    pub mutator: M,
}

impl<M> Mutate<M> {
    /// The stage that mutates with `mutator`.
    pub fn new(mutator: M) -> (stage: Self)
        ensures
            stage.mutator == mutator,
    {
        Mutate { mutator }
    }
}

impl<G, M: Mutator<G>> Operator<G> for Mutate<M> {
    type Output = G;

    open spec fn yields(&self, input: G, outcome: Result<G, EvolutionError>) -> bool {
        self.mutator.may_mutate(input, outcome)
    }

    fn apply(&self, input: G, rng: &mut RandomSource) -> (out: Result<G, EvolutionError>) {
        self.mutator.mutate(input, rng)
    }
}

/// The last step of a pipeline: the genome it has made is scored and
/// becomes an individual.
#[derive(Debug, Clone)]
pub struct GenomeScorer<Sc> {
    pub scorer: Sc,
}

impl<Sc> GenomeScorer<Sc> {
    /// The step that scores with `scorer`.
    pub fn new(scorer: Sc) -> (step: Self)
        ensures
            step.scorer == scorer,
    {
        GenomeScorer { scorer }
    }
}

impl<G, Sc: Scorer<G>> Finisher<G> for GenomeScorer<Sc> {
    type Output = Individual<G, Sc::Result>;

    open spec fn finishes(&self, value: G, out: Individual<G, Sc::Result>) -> bool {
        out.genome == value && out.test_results@ == self.scorer.scored(&value)
    }

    fn finish(&self, value: G) -> (out: Individual<G, Sc::Result>) {
        let test_results = self.scorer.score(&value);
        Individual { genome: value, test_results }
    }
}

/// Every individual that comes out of a pipeline whose last step is a
/// scorer carries the results that this scorer gives to its genome: scoring
/// the genome again gives the same results.
pub proof fn pipeline_scores_consistently<Input, A: Operator<Input>, Sc: Scorer<A::Output>>(
    pipeline: Wrap<A, GenomeScorer<Sc>>,
    input: Input,
    child: Individual<A::Output, Sc::Result>,
)
    requires
        pipeline.yields(input, Ok(child)),
    ensures
        child.test_results@ == pipeline.last.scorer.scored(&child.genome),
{
}

} // verus!
