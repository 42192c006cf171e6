//! A generation: a population together with the selector and the child
//! maker that turn it into the next one.

use crate::child_maker::ChildMaker;
use crate::child_maker::Pipeline;
use crate::error::ConfigurationError;
use crate::error::EvolutionError;
use crate::individual::Individual;
use crate::operator::stages::pipeline_scores_consistently;
use crate::operator::stages::GenomeScorer;
use crate::operator::stages::Scorer;
use crate::operator::Operator;
use crate::operator::Wrap;
use crate::random::task_seed;
use crate::random::RandomSource;
use crate::selector::may_choose;
use crate::selector::Selector;
use vstd::prelude::*;

verus! {

/// A population, the selector that chooses parents from it, and the child
/// maker that makes offspring. A step leaves it as it is and hands out a
/// new generation.
pub struct Generation<P, S, C> {
    population: P,
    selector: S,
    child_maker: C,
}

impl<P, S, C> Generation<P, S, C> {
    /// The selector.
    pub closed spec fn spec_selector(&self) -> &S {
        &self.selector
    }

    /// The population.
    pub closed spec fn spec_population(&self) -> &P {
        &self.population
    }

    /// The child maker.
    pub closed spec fn spec_child_maker(&self) -> &C {
        &self.child_maker
    }

    /// The selector.
    #[verifier::when_used_as_spec(spec_selector)]
    pub fn selector(&self) -> (selector: &S)
        ensures
            selector == self.selector(),
    {
        &self.selector
    }

    /// The population.
    #[verifier::when_used_as_spec(spec_population)]
    pub fn population(&self) -> (population: &P)
        ensures
            population == self.population(),
    {
        &self.population
    }

    /// The child maker.
    #[verifier::when_used_as_spec(spec_child_maker)]
    pub fn child_maker(&self) -> (child_maker: &C)
        ensures
            child_maker == self.child_maker(),
    {
        &self.child_maker
    }

    /// The generation made of `population`, `selector` and `child_maker`.
    pub fn new(population: P, selector: S, child_maker: C) -> (generation: Self)
        ensures
            *generation.population() == population,
            *generation.selector() == selector,
            *generation.child_maker() == child_maker,
    {
        Self { population, selector, child_maker }
    }
}

/// The error of the first of `outcomes` that is a failure, if any is.
pub open spec fn first_failure<I>(outcomes: Seq<Result<I, EvolutionError>>) -> Option<EvolutionError>
    decreases outcomes.len(),
{
    if outcomes.len() == 0 {
        None
    } else {
        match first_failure(outcomes.drop_last()) {
            Some(e) => Some(e),
            None => match outcomes.last() {
                Err(e) => Some(e),
                Ok(_) => None,
            },
        }
    }
}

/// Whether `children` are, in order, what the successful `outcomes` hold.
pub open spec fn are_successes<I>(outcomes: Seq<Result<I, EvolutionError>>, children: Seq<I>) -> bool {
    &&& children.len() == outcomes.len()
    &&& forall|i: int|
        0 <= i < outcomes.len() ==> #[trigger] outcomes[i] == Ok::<I, EvolutionError>(children[i])
}

/// The error with which `outcomes` are refused as the offspring of a
/// population of `size` members: an empty population; else the first
/// failure among them; else that they are not `size` many.
pub open spec fn step_refusal<I>(size: nat, outcomes: Seq<Result<I, EvolutionError>>) -> Option<
    EvolutionError,
> {
    if size == 0 {
        Some(EvolutionError::EmptyCollection)
    } else if first_failure(outcomes) is Some {
        first_failure(outcomes)
    } else if outcomes.len() != size {
        Some(EvolutionError::ConfigurationError(ConfigurationError::PopulationSizeMismatch))
    } else {
        None
    }
}

impl<I, S: Selector<I> + Clone, C: ChildMaker<I, S> + Clone> Generation<Vec<I>, S, C> {
    /// Whether `next` may follow this generation: it has as many members,
    /// each of them a child that the child maker may make of this
    /// population, and copies of the selector and the child maker.
    pub open spec fn may_be_followed_by(&self, next: &Self) -> bool {
        &&& next.population().len() == self.population().len()
        &&& forall|i: int|
            0 <= i < next.population().len() ==> self.child_maker().may_make(
                self.population(),
                self.selector(),
                Ok(#[trigger] next.population()[i]),
            )
        &&& cloned(*self.selector(), *next.selector())
        &&& cloned(*self.child_maker(), *next.child_maker())
    }

    /// One member of the population, chosen by the selector.
    pub fn get_parent(&self, rng: &mut RandomSource) -> (out: Result<&I, EvolutionError>)
        ensures
            match out {
                Ok(parent) => may_choose(self.selector(), self.population()@, *parent),
                Err(e) => self.selector().allows(self.population()@, Err(e)),
            },
    {
        self.selector.select(&self.population, rng)
    }

    /// The next generation, made one child after the other with draws from
    /// `rng`. An empty population is refused, and the first failure of the
    /// child maker ends the step and is handed out.
    pub fn next(&self, rng: &mut RandomSource) -> (out: Result<Self, EvolutionError>)
        ensures
            match out {
                Ok(next) => self.population().len() > 0 && self.may_be_followed_by(&next),
                Err(e) => if self.population().len() == 0 {
                    e == EvolutionError::EmptyCollection
                } else {
                    self.child_maker().may_make(self.population(), self.selector(), Err(e))
                },
            },
    {
        let size = self.population.len();
        if size == 0 {
            return Err(EvolutionError::EmptyCollection);
        }
        let mut children: Vec<I> = Vec::new();
        let mut made: usize = 0;
        while made < size
            invariant
                made <= size,
                size == self.population.len(),
                children.len() == made,
                forall|i: int|
                    0 <= i < made ==> self.child_maker.may_make(
                        &self.population,
                        &self.selector,
                        Ok(#[trigger] children[i]),
                    ),
            decreases size - made,
        {
            match self.child_maker.make_child(rng, &self.population, &self.selector) {
                Err(e) => {
                    return Err(e);
                },
                Ok(child) => {
                    children.push(child);
                },
            }
            made = made + 1;
        }
        Ok(
            Generation {
                population: children,
                selector: self.selector.clone(),
                child_maker: self.child_maker.clone(),
            },
        )
    }

    /// The child for one slot of the next generation, made with draws of
    /// its own: the random source of slot `task` is seeded with
    /// `master_seed + task`.
    pub fn child_for_task(&self, master_seed: u64, task: usize) -> (out: Result<I, EvolutionError>)
        ensures
            self.child_maker().may_make(self.population(), self.selector(), out),
    {
        let mut rng = RandomSource::from_seed(task_seed(master_seed, task));
        self.child_maker.make_child(&mut rng, &self.population, &self.selector)
    }

    /// The next generation, made of offspring that were produced slot by
    /// slot. All of them become the new population, or none: an empty
    /// population is refused, then the first failure among `outcomes` is
    /// handed out, then offspring that are not as many as the population.
    pub fn succeeded_by(&self, outcomes: Vec<Result<I, EvolutionError>>) -> (out: Result<
        Self,
        EvolutionError,
    >)
        ensures
            match out {
                Ok(next) => {
                    &&& step_refusal(self.population().len() as nat, outcomes@) is None
                    &&& are_successes(outcomes@, next.population()@)
                    &&& cloned(*self.selector(), *next.selector())
                    &&& cloned(*self.child_maker(), *next.child_maker())
                },
                Err(e) => step_refusal(self.population().len() as nat, outcomes@) == Some(e),
            },
    {
        let size = self.population.len();
        if size == 0 {
            return Err(EvolutionError::EmptyCollection);
        }
        let ghost all = outcomes@;
        let count = outcomes.len();
        let mut children: Vec<I> = Vec::new();
        for outcome in iter: outcomes
            invariant
                self.population.len() > 0,
                iter.seq() == all,
                first_failure(all.take(iter.index() as int)) is None,
                are_successes(all.take(iter.index() as int), children@),
        {
            proof {
                assert(all.take(iter.index() + 1).drop_last() =~= all.take(iter.index() as int));
            }
            match outcome {
                Err(e) => {
                    proof {
                        failure_stays_first(all, iter.index() + 1);
                    }
                    return Err(e);
                },
                Ok(child) => {
                    children.push(child);
                },
            }
        }
        proof {
            assert(all.take(all.len() as int) =~= all);
        }
        if count != size {
            return Err(EvolutionError::ConfigurationError(ConfigurationError::PopulationSizeMismatch));
        }
        Ok(
            Generation {
                population: children,
                selector: self.selector.clone(),
                child_maker: self.child_maker.clone(),
            },
        )
    }
}

/// A failure among the first `k` outcomes is the first failure of all of
/// them.
pub proof fn failure_stays_first<I>(outcomes: Seq<Result<I, EvolutionError>>, k: int)
    requires
        0 <= k <= outcomes.len(),
        first_failure(outcomes.take(k)) is Some,
    ensures
        first_failure(outcomes) == first_failure(outcomes.take(k)),
    decreases outcomes.len(),
{
    if k == outcomes.len() {
        assert(outcomes.take(k) =~= outcomes);
    } else {
        assert(outcomes.drop_last().take(k) =~= outcomes.take(k));
        failure_stays_first(outcomes.drop_last(), k);
    }
}

/// A step keeps the size of the population: the generation that follows
/// has as many members as the one before.
pub proof fn step_keeps_size<I, S: Selector<I> + Clone, C: ChildMaker<I, S> + Clone>(
    before: Generation<Vec<I>, S, C>,
    after: Generation<Vec<I>, S, C>,
)
    requires
        before.may_be_followed_by(&after),
    ensures
        after.population().len() == before.population().len(),
{
}

/// The offspring that were made slot by slot become a population only
/// where they are as many as the population they replace.
pub proof fn accepted_outcomes_keep_size<I>(
    size: nat,
    outcomes: Seq<Result<I, EvolutionError>>,
    children: Seq<I>,
)
    requires
        step_refusal(size, outcomes) is None,
        are_successes(outcomes, children),
    ensures
        children.len() == size,
        size > 0,
{
}

/// Every member of a generation that a pipeline ending in a scorer has
/// made carries the results that this scorer gives to its genome: scoring
/// the genome again gives the same results.
pub proof fn step_scores_consistently<G, S, A, Sc>(
    before: Generation<Vec<Individual<G, Sc::Result>>, S, Pipeline<Wrap<A, GenomeScorer<Sc>>>>,
    after: Generation<Vec<Individual<G, Sc::Result>>, S, Pipeline<Wrap<A, GenomeScorer<Sc>>>>,
    i: int,
) where
    S: Selector<Individual<G, Sc::Result>> + Clone,
    A: for <'pop>Operator<&'pop Vec<Individual<G, Sc::Result>>, Output = G> + Clone,
    Sc: Scorer<G> + Clone,

    requires
        before.may_be_followed_by(&after),
        0 <= i < after.population().len(),
    ensures
        after.population()[i].test_results@ == before.child_maker().stages.last.scorer.scored(
            &after.population()[i].genome,
        ),
{
    let child = after.population()[i];
    pipeline_scores_consistently(before.child_maker().stages, before.population(), child);
}

} // verus!
