//! Tournament selection: the best of a small random sample.

use crate::error::ConfigurationError;
use crate::error::EvolutionError;
use crate::random::RandomSource;
use crate::selector::best::is_first_best;
use crate::selector::Selector;
use crate::test_results::merits;
use crate::test_results::Ranked;
use vstd::prelude::*;

verus! {

/// Whether every entry of `sample` is a position in a collection of `len`
/// items.
pub open spec fn is_sample_of(sample: Seq<usize>, len: int) -> bool {
    forall|k: int| 0 <= k < sample.len() ==> (#[trigger] sample[k]) < len
}

/// The merits of the sampled members, in the order in which they were drawn.
pub open spec fn sample_merits(merits: Seq<int>, sample: Seq<usize>) -> Seq<int> {
    Seq::new(sample.len(), |k: int| merits[sample[k] as int])
}

/// Whether `winner` is the member that the first of the best draws of
/// `sample` names.
pub open spec fn is_sample_winner(merits: Seq<int>, sample: Seq<usize>, winner: int) -> bool {
    exists|k: int| #[trigger] is_first_best(sample_merits(merits, sample), k) && sample[k] == winner
}

/// Whether some sample of `size` draws from the population has `winner` as
/// its winner.
pub open spec fn may_win(merits: Seq<int>, size: usize, winner: int) -> bool {
    exists|sample: Seq<usize>|
        sample.len() == size && is_sample_of(sample, merits.len() as int) && #[trigger] is_sample_winner(
            merits,
            sample,
            winner,
        )
}

/// Chooses the best of `size` members drawn at random, each draw being made
/// from the whole population.
#[derive(Debug, Clone, Copy, PartialEq, Eq, Structural)]
pub struct Tournament {
    pub size: usize,
}

/// The member named by the first of the best draws of a sample that is not
/// empty.
fn winner_of<I: Ranked>(population: &Vec<I>, sample: &Vec<usize>) -> (winner: usize)
    requires
        sample.len() > 0,
        is_sample_of(sample@, population.len() as int),
    ensures
        winner < population.len(),
        is_sample_winner(merits(population@), sample@, winner as int),
{
    let ghost drawn = sample_merits(merits(population@), sample@);
    let mut best: usize = 0;
    let mut k: usize = 1;
    while k < sample.len()
        invariant
            1 <= k <= sample.len(),
            is_sample_of(sample@, population.len() as int),
            drawn == sample_merits(merits(population@), sample@),
            is_first_best(drawn.take(k as int), best as int),
        decreases sample.len() - k,
    {
        if !population[sample[best]].at_least(&population[sample[k]]) {
            best = k;
        }
        k = k + 1;
    }
    proof {
        assert(drawn.take(k as int) =~= drawn);
    }
    sample[best]
}

/// The member named by the first of the best draws of `sample`, or `None`
/// where the sample is empty.
pub fn sample_winner<I: Ranked>(population: &Vec<I>, sample: &Vec<usize>) -> (out: Option<usize>)
    requires
        is_sample_of(sample@, population.len() as int),
    ensures
        out is None <==> sample.len() == 0,
        out matches Some(winner) ==> winner < population.len() && is_sample_winner(
            merits(population@),
            sample@,
            winner as int,
        ),
{
    if sample.len() == 0 {
        None
    } else {
        Some(winner_of(population, sample))
    }
}

impl Tournament {
    /// A tournament among `size` draws.
    pub fn new(size: usize) -> (selector: Self)
        ensures
            selector.size == size,
    {
        Tournament { size }
    }

    /// The error with which selection on a population of `len` members is
    /// refused: an empty population, or a tournament without participants.
    pub open spec fn refusal(&self, len: nat) -> Option<EvolutionError> {
        if len == 0 {
            Some(EvolutionError::EmptyCollection)
        } else if self.size == 0 {
            Some(EvolutionError::ConfigurationError(ConfigurationError::EmptyTournament))
        } else {
            None
        }
    }
}

impl<I: Ranked> Selector<I> for Tournament {
    open spec fn allows(&self, population: Seq<I>, outcome: Result<int, EvolutionError>) -> bool {
        match outcome {
            Ok(i) => self.refusal(population.len()) is None && may_win(merits(population), self.size, i),
            Err(e) => self.refusal(population.len()) == Some(e),
        }
    }

    fn select<'pop>(&self, population: &'pop Vec<I>, rng: &mut RandomSource) -> (out: Result<
        &'pop I,
        EvolutionError,
    >) {
        if population.len() == 0 {
            return Err(EvolutionError::EmptyCollection);
        }
        if self.size == 0 {
            return Err(EvolutionError::ConfigurationError(ConfigurationError::EmptyTournament));
        }
        let mut sample: Vec<usize> = Vec::new();
        let mut k: usize = 0;
        while k < self.size
            invariant
                k <= self.size,
                sample.len() == k,
                population.len() > 0,
                is_sample_of(sample@, population.len() as int),
            decreases self.size - k,
        {
            let drawn = rng.below(population.len());
            sample.push(drawn);
            k = k + 1;
        }
        let winner = winner_of(population, &sample);
        assert(self.allows(population@, Ok(winner as int)));
        Ok(&population[winner])
    }
}

/// The winner of a sample is one of the sampled members, and none of them
/// has a larger merit.
pub proof fn winner_is_best_of_sample(merits: Seq<int>, sample: Seq<usize>, winner: int)
    requires
        is_sample_of(sample, merits.len() as int),
        is_sample_winner(merits, sample, winner),
    ensures
        exists|k: int| 0 <= k < sample.len() && #[trigger] sample[k] == winner,
        forall|k: int| 0 <= k < sample.len() ==> merits[#[trigger] sample[k] as int] <= merits[winner],
{
    let drawn = sample_merits(merits, sample);
    let w = choose|k: int| #[trigger] is_first_best(drawn, k) && sample[k] == winner;
    assert forall|k: int| 0 <= k < sample.len() implies merits[#[trigger] sample[k] as int]
        <= merits[winner] by {
        assert(drawn[k] <= drawn[w]);
    }
}

/// Whatever a tournament chooses was drawn into a sample of `size` members
/// of the population, and no member of that sample has a larger merit.
pub proof fn tournament_chooses_best_of_sample<I: Ranked>(
    selector: Tournament,
    population: Seq<I>,
    chosen: int,
) -> (sample: Seq<usize>)
    requires
        selector.allows(population, Ok(chosen)),
    ensures
        sample.len() == selector.size,
        is_sample_of(sample, population.len() as int),
        exists|k: int| 0 <= k < sample.len() && #[trigger] sample[k] == chosen,
        forall|k: int|
            0 <= k < sample.len() ==> population[#[trigger] sample[k] as int].merit()
                <= population[chosen].merit(),
{
    let m = merits(population);
    let sample = choose|sample: Seq<usize>|
        sample.len() == selector.size && is_sample_of(sample, m.len() as int)
            && #[trigger] is_sample_winner(m, sample, chosen);
    winner_is_best_of_sample(m, sample, chosen);
    sample
}

} // verus!
