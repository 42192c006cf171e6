//! The child maker for bitstrings: two parents are selected, crossed over
//! at two points, the child is mutated and then scored.

use crate::bitstring::mutate_one_over_length;
use crate::bitstring::two_point_xo;
use crate::bitstring::Bitstring;
use crate::child_maker::ChildMaker;
use crate::error::EvolutionError;
use crate::error::StageFailure;
use crate::individual::Individual;
use crate::random::RandomSource;
use crate::selector::may_choose;
use crate::selector::Selector;
use crate::test_results::amounts;
use crate::test_results::checked_total;
use crate::test_results::widened;
use crate::test_results::CaseResult;
use crate::test_results::TestResults;
use vstd::prelude::*;

verus! {

/// Whether the results of `child` are what `scorer` may say of its genome:
/// one result per number that the scorer returns, carrying that number, and
/// their sum as the total.
pub open spec fn is_scored_by<F: Fn(&Bitstring) -> Vec<i64>, R: CaseResult>(
    scorer: &F,
    child: Individual<Bitstring, R>,
) -> bool {
    &&& child.test_results.adds_up()
    &&& exists|raw: Vec<i64>| #[trigger]
        call_ensures(*scorer, (&child.genome,), raw) && amounts(child.test_results.results@) == widened(
            raw@,
        )
}

/// Whether `scorer` may give some genome of `len` bits numbers whose sum
/// does not fit in an `i64`.
pub open spec fn may_overflow<F: Fn(&Bitstring) -> Vec<i64>>(scorer: &F, len: nat) -> bool {
    exists|genome: Bitstring, raw: Vec<i64>| #[trigger]
        call_ensures(*scorer, (&genome,), raw) && genome.len() == len && checked_total(widened(raw@))
            is None
}

/// Whether `first` and `second` are members of `population` that `selector`
/// may choose as parents.
pub open spec fn may_be_parents<R, S: Selector<Individual<Bitstring, R>>>(
    selector: &S,
    population: Seq<Individual<Bitstring, R>>,
    first: Individual<Bitstring, R>,
    second: Individual<Bitstring, R>,
) -> bool {
    may_choose(selector, population, first) && may_choose(selector, population, second)
}

/// Whether the genomes of `first` and `second` can be crossed over: they
/// have the same number of bits, and at least one.
pub open spec fn can_cross<R>(first: Individual<Bitstring, R>, second: Individual<Bitstring, R>) -> bool {
    first.genome.len() == second.genome.len() && first.genome.len() > 0
}

/// Whether `child` may come of two parents chosen from `population`.
pub open spec fn may_descend<
    F: Fn(&Bitstring) -> Vec<i64>,
    R: CaseResult,
    S: Selector<Individual<Bitstring, R>>,
>(
    scorer: &F,
    selector: &S,
    population: Seq<Individual<Bitstring, R>>,
    child: Individual<Bitstring, R>,
) -> bool {
    &&& is_scored_by(scorer, child)
    &&& exists|first: Individual<Bitstring, R>, second: Individual<Bitstring, R>| #[trigger]
        may_be_parents(selector, population, first, second) && can_cross(first, second)
            && child.genome.len() == first.genome.len()
}

/// Whether making a child from `population` may fail with `e`: selection
/// fails with it; or two parents may be chosen that cannot be crossed over;
/// or the numbers that the scorer gives a child may not add up.
pub open spec fn may_miscarry<
    F: Fn(&Bitstring) -> Vec<i64>,
    R: CaseResult,
    S: Selector<Individual<Bitstring, R>>,
>(
    scorer: &F,
    selector: &S,
    population: Seq<Individual<Bitstring, R>>,
    e: EvolutionError,
) -> bool {
    ||| selector.allows(population, Err(e))
    ||| e == EvolutionError::PipelineStageFailure(StageFailure::Recombination) && exists|
        first: Individual<Bitstring, R>,
        second: Individual<Bitstring, R>,
    | #[trigger]
        may_be_parents(selector, population, first, second) && !can_cross(first, second)
    ||| e == EvolutionError::PipelineStageFailure(StageFailure::Scoring) && exists|
        first: Individual<Bitstring, R>,
        second: Individual<Bitstring, R>,
    | #[trigger]
        may_be_parents(selector, population, first, second) && can_cross(first, second)
            && may_overflow(scorer, first.genome.len() as nat)
}

/// Makes a child of two selected parents by two-point crossover and
/// mutation of one bit in `length` on average, and scores it with `scorer`.
pub struct TwoPointXoMutate<'a, F: Fn(&Bitstring) -> Vec<i64>> {
    scorer: &'a F,
}

impl<'a, F: Fn(&Bitstring) -> Vec<i64>> Clone for TwoPointXoMutate<'a, F> {
    fn clone(&self) -> (copy: Self)
        ensures
            copy == *self,
    {
        proof {
            use_type_invariant(self);
        }
        TwoPointXoMutate { scorer: self.scorer }
    }
}

impl<'a, F: Fn(&Bitstring) -> Vec<i64>> TwoPointXoMutate<'a, F> {
    #[verifier::type_invariant]
    spec fn scorer_takes_all(self) -> bool {
        forall|genome: &Bitstring| call_requires(*self.scorer, (genome,))
    }

    /// The scorer.
    pub closed spec fn scorer(&self) -> &F {
        self.scorer
    }

    /// The child maker that scores with `scorer`, which must accept every
    /// bitstring.
    pub fn new(scorer: &'a F) -> (maker: Self)
        requires
            forall|genome: &Bitstring| call_requires(*scorer, (genome,)),
        ensures
            maker.scorer() == scorer,
    {
        TwoPointXoMutate { scorer }
    }

    /// The results that the scorer gives `genome`, or the failure `Scoring`
    /// where the numbers it returns do not add up within an `i64`.
    pub fn score<R: CaseResult>(&self, genome: Bitstring) -> (out: Result<
        Individual<Bitstring, R>,
        EvolutionError,
    >)
        ensures
            match out {
                Ok(child) => child.genome == genome && is_scored_by(self.scorer(), child),
                Err(e) => e == EvolutionError::PipelineStageFailure(StageFailure::Scoring)
                    && may_overflow(self.scorer(), genome.len() as nat),
            },
    {
        proof {
            use_type_invariant(self);
        }
        let raw = (self.scorer)(&genome);
        let mut results: Vec<R> = Vec::new();
        let mut i: usize = 0;
        while i < raw.len()
            invariant
                i <= raw.len(),
                results.len() == i,
                forall|j: int| 0 <= j < i ==> (#[trigger] results[j]).amount() == raw[j],
            decreases raw.len() - i,
        {
            results.push(R::from_raw(raw[i]));
            i = i + 1;
        }
        proof {
            assert(amounts(results@) =~= widened(raw@));
        }
        match TestResults::from_results(results) {
            None => Err(EvolutionError::PipelineStageFailure(StageFailure::Scoring)),
            Some(test_results) => {
                let child = Individual { genome, test_results };
                Ok(child)
            },
        }
    }
}

impl<'a, F, S, R> ChildMaker<Individual<Bitstring, R>, S> for TwoPointXoMutate<'a, F> where
    F: Fn(&Bitstring) -> Vec<i64>,
    S: Selector<Individual<Bitstring, R>>,
    R: CaseResult,
 {
    open spec fn may_make(
        &self,
        population: &Vec<Individual<Bitstring, R>>,
        selector: &S,
        outcome: Result<Individual<Bitstring, R>, EvolutionError>,
    ) -> bool {
        match outcome {
            Ok(child) => may_descend(self.scorer(), selector, population@, child),
            Err(e) => may_miscarry(self.scorer(), selector, population@, e),
        }
    }

    fn make_child(
        &self,
        rng: &mut RandomSource,
        population: &Vec<Individual<Bitstring, R>>,
        selector: &S,
    ) -> (out: Result<Individual<Bitstring, R>, EvolutionError>) {
        let first = match selector.select(population, rng) {
            Ok(parent) => parent,
            Err(e) => {
                return Err(e);
            },
        };
        let second = match selector.select(population, rng) {
            Ok(parent) => parent,
            Err(e) => {
                return Err(e);
            },
        };
        let crossed = match two_point_xo(&first.genome, &second.genome, rng) {
            Ok(genome) => genome,
            Err(e) => {
                return Err(e);
            },
        };
        let genome = mutate_one_over_length(&crossed, rng);
        match self.score(genome) {
            Ok(child) => {
                proof {
                    assert(may_be_parents(selector, population@, *first, *second) && can_cross(
                        *first,
                        *second,
                    ) && child.genome.len() == first.genome.len());
                }
                Ok(child)
            },
            Err(e) => {
                proof {
                    assert(may_be_parents(selector, population@, *first, *second) && can_cross(
                        *first,
                        *second,
                    ) && may_overflow(self.scorer(), first.genome.len() as nat));
                }
                Err(e)
            },
        }
    }
}

/// Every child that this child maker makes carries results that its scorer
/// may give the child's own genome, and their sum as the total.
pub proof fn child_is_scored_by_its_maker<'a, F, S, R>(
    maker: TwoPointXoMutate<'a, F>,
    population: &Vec<Individual<Bitstring, R>>,
    selector: &S,
    child: Individual<Bitstring, R>,
) where F: Fn(&Bitstring) -> Vec<i64>, S: Selector<Individual<Bitstring, R>>, R: CaseResult
    requires
        maker.may_make(population, selector, Ok(child)),
    ensures
        is_scored_by(maker.scorer(), child),
{
}

} // verus!
