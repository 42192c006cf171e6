//! Selection of the best member of a population.

use crate::error::EvolutionError;
use crate::random::RandomSource;
use crate::selector::Selector;
use crate::test_results::merits;
use crate::test_results::Ranked;
use vstd::prelude::*;

verus! {

/// Whether position `i` holds the first of the largest values of `merits`:
/// no value is larger, and every earlier value is smaller.
pub open spec fn is_first_best(merits: Seq<int>, i: int) -> bool {
    &&& 0 <= i < merits.len()
    &&& forall|j: int| 0 <= j < merits.len() ==> merits[j] <= merits[i]
    &&& forall|j: int| 0 <= j < i ==> merits[j] < merits[i]
}

/// At most one position holds the first of the largest values.
pub proof fn first_best_is_unique(merits: Seq<int>, i: int, j: int)
    requires
        is_first_best(merits, i),
        is_first_best(merits, j),
    ensures
        i == j,
{
    assert(merits[i] <= merits[j] && merits[j] <= merits[i]);
}

/// The position of the first of the best members of `population`, or `None`
/// where the population is empty.
pub fn best_index<I: Ranked>(population: &Vec<I>) -> (out: Option<usize>)
    ensures
        out is None <==> population.len() == 0,
        out matches Some(i) ==> is_first_best(merits(population@), i as int),
{
    if population.len() == 0 {
        return None;
    }
    let mut best: usize = 0;
    let mut k: usize = 1;
    while k < population.len()
        invariant
            1 <= k <= population.len(),
            is_first_best(merits(population@.take(k as int)), best as int),
        decreases population.len() - k,
    {
        let ghost before = merits(population@.take(k as int));
        let ghost after = merits(population@.take(k + 1));
        if !population[best].at_least(&population[k]) {
            best = k;
        }
        proof {
            assert forall|j: int| 0 <= j < k implies after[j] == before[j] by {}
        }
        k = k + 1;
    }
    proof {
        assert(population@.take(k as int) =~= population@);
    }
    Some(best)
}

/// Chooses the member with the largest merit; among several of them, the
/// first. It draws nothing from the random source.
#[derive(Debug, Clone, Copy, PartialEq, Eq, Structural)]
pub struct Best;

impl<I: Ranked> Selector<I> for Best {
    open spec fn allows(&self, population: Seq<I>, outcome: Result<int, EvolutionError>) -> bool {
        match outcome {
            Ok(i) => is_first_best(merits(population), i),
            Err(e) => population.len() == 0 && e == EvolutionError::EmptyCollection,
        }
    }

    fn select<'pop>(&self, population: &'pop Vec<I>, rng: &mut RandomSource) -> (out: Result<
        &'pop I,
        EvolutionError,
    >) {
        match best_index(population) {
            None => Err(EvolutionError::EmptyCollection),
            Some(i) => {
                assert(self.allows(population@, Ok(i as int)));
                Ok(&population[i])
            },
        }
    }
}

/// `Best` has exactly one outcome on every population: an empty one is
/// refused, and of any other the first of its best members is chosen.
pub proof fn best_is_deterministic<I: Ranked>(
    population: Seq<I>,
    first: Result<int, EvolutionError>,
    second: Result<int, EvolutionError>,
)
    requires
        Best.allows(population, first),
        Best.allows(population, second),
    ensures
        first == second,
        population.len() == 0 <==> first is Err,
{
    if let Ok(i) = first {
        if let Ok(j) = second {
            first_best_is_unique(merits(population), i, j);
        }
    }
}

/// Whatever `Best` chooses, no member of the population has a larger merit.
pub proof fn best_is_maximal<I: Ranked>(population: Seq<I>, chosen: int, other: int)
    requires
        Best.allows(population, Ok(chosen)),
        0 <= other < population.len(),
    ensures
        0 <= chosen < population.len(),
        population[other].merit() <= population[chosen].merit(),
{
    assert(merits(population)[other] <= merits(population)[chosen]);
}

} // verus!
