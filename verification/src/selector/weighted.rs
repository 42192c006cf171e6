//! Weighted selection: one of several selectors is picked with a chance
//! proportional to its weight, and chooses.

use crate::error::ConfigurationError;
use crate::error::EvolutionError;
use crate::random::RandomSource;
use crate::selector::Selector;
use crate::test_results::total;
use crate::test_results::total_push;
use vstd::prelude::*;

verus! {

/// The weights of a list of weighted entries.
pub open spec fn weights<S>(entries: Seq<(S, usize)>) -> Seq<int> {
    Seq::new(entries.len(), |k: int| entries[k].1 as int)
}

/// The sum of the first `k` of `weights`.
pub open spec fn weight_before(weights: Seq<int>, k: int) -> int {
    total(weights.take(k))
}

/// Whether a list of weighted entries can be drawn from: it has an entry,
/// every weight is positive, and the weights add up within `usize`.
pub open spec fn is_weighted_list<S>(entries: Seq<(S, usize)>) -> bool {
    &&& entries.len() > 0
    &&& forall|k: int| 0 <= k < entries.len() ==> (#[trigger] entries[k]).1 > 0
    &&& total(weights(entries)) <= usize::MAX
}

/// Whether entry `k` is the first whose weight, added to the weights of
/// all entries before it, exceeds `draw`.
pub open spec fn is_located(weights: Seq<int>, draw: int, k: int) -> bool {
    &&& 0 <= k < weights.len()
    &&& weight_before(weights, k + 1) > draw
    &&& forall|j: int| 0 <= j < k ==> #[trigger] weight_before(weights, j + 1) <= draw
}

/// The sum of the first `k + 1` weights is the sum of the first `k` and the
/// weight at `k`.
pub proof fn weight_before_next(weights: Seq<int>, k: int)
    requires
        0 <= k < weights.len(),
    ensures
        weight_before(weights, k + 1) == weight_before(weights, k) + weights[k],
{
    assert(weights.take(k + 1) =~= weights.take(k).push(weights[k]));
    total_push(weights.take(k), weights[k]);
}

/// With weights that are not negative, the sum of a prefix is not negative
/// and does not shrink as the prefix grows.
pub proof fn weight_before_grows(weights: Seq<int>, j: int, k: int)
    requires
        forall|i: int| 0 <= i < weights.len() ==> #[trigger] weights[i] >= 0,
        0 <= j <= k <= weights.len(),
    ensures
        0 <= weight_before(weights, j) <= weight_before(weights, k),
    decreases k,
{
    if k == 0 {
    } else if j == k {
        weight_before_grows(weights, j - 1, k - 1);
        weight_before_next(weights, k - 1);
    } else {
        weight_before_grows(weights, j, k - 1);
        weight_before_next(weights, k - 1);
    }
}

/// The draws that land on an entry are as many as its weight: entry `k` is
/// located by exactly the draws from the sum of the weights before it up to,
/// and not including, that sum plus its own weight. (A draw is a number
/// that is not negative.)
pub proof fn located_in_proportion(weights: Seq<int>, draw: int, k: int)
    requires
        forall|i: int| 0 <= i < weights.len() ==> #[trigger] weights[i] > 0,
        0 <= k < weights.len(),
        0 <= draw,
    ensures
        is_located(weights, draw, k) <==> weight_before(weights, k) <= draw < weight_before(weights, k)
            + weights[k],
{
    weight_before_next(weights, k);
    if is_located(weights, draw, k) {
        if k > 0 {
            assert(weight_before(weights, (k - 1) + 1) <= draw);
        }
        weight_before_grows(weights, 0, 0);
    }
    if weight_before(weights, k) <= draw < weight_before(weights, k) + weights[k] {
        assert forall|j: int| 0 <= j < k implies #[trigger] weight_before(weights, j + 1) <= draw by {
            weight_before_grows(weights, j + 1, k);
        }
    }
}

/// Every draw below the sum of all weights lands on exactly one entry.
pub proof fn located_is_unique(weights: Seq<int>, draw: int, j: int, k: int)
    requires
        is_located(weights, draw, j),
        is_located(weights, draw, k),
    ensures
        j == k,
{
}

/// Whether one of the selectors of `entries` allows `outcome` on
/// `population`.
pub open spec fn some_entry_allows<I, S: Selector<I>>(
    entries: Seq<(S, usize)>,
    population: Seq<I>,
    outcome: Result<int, EvolutionError>,
) -> bool {
    exists|k: int| 0 <= k < entries.len() && #[trigger] entries[k].0.allows(population, outcome)
}

/// A list of selectors, each with a positive weight. Selection is handed to
/// one of them, picked with a chance proportional to its weight.
pub struct Weighted<S> {
    entries: Vec<(S, usize)>,
    total: usize,
}

impl<S> View for Weighted<S> {
    type V = Seq<(S, usize)>;

    closed spec fn view(&self) -> Seq<(S, usize)> {
        self.entries@
    }
}

impl<S: Clone> Clone for Weighted<S> {
    fn clone(&self) -> (copy: Self)
        ensures
            copy@.len() == self@.len(),
            forall|k: int|
                0 <= k < self@.len() ==> (#[trigger] copy@[k]).1 == self@[k].1 && cloned(
                    self@[k].0,
                    copy@[k].0,
                ),
    {
        proof {
            use_type_invariant(self);
        }
        let mut entries: Vec<(S, usize)> = Vec::new();
        let mut k: usize = 0;
        while k < self.entries.len()
            invariant
                k <= self.entries.len(),
                entries.len() == k,
                forall|j: int|
                    0 <= j < k ==> (#[trigger] entries[j]).1 == self.entries[j].1 && cloned(
                        self.entries[j].0,
                        entries[j].0,
                    ),
            decreases self.entries.len() - k,
        {
            entries.push((self.entries[k].0.clone(), self.entries[k].1));
            k = k + 1;
        }
        proof {
            assert(weights(entries@) =~= weights(self.entries@));
        }
        Weighted { entries, total: self.total }
    }
}

impl<S> Weighted<S> {
    #[verifier::type_invariant]
    spec fn well_formed(self) -> bool {
        &&& is_weighted_list(self.entries@)
        &&& self.total == total(weights(self.entries@))
    }

    /// A weighted selector with the single entry `selector`, or the error
    /// `NonPositiveWeight` where `weight` is zero.
    pub fn new(selector: S, weight: usize) -> (out: Result<Self, EvolutionError>)
        ensures
            match out {
                Ok(made) => weight > 0 && made@ == seq![(selector, weight)],
                Err(e) => weight == 0 && e == EvolutionError::ConfigurationError(
                    ConfigurationError::NonPositiveWeight,
                ),
            },
    {
        if weight == 0 {
            return Err(EvolutionError::ConfigurationError(ConfigurationError::NonPositiveWeight));
        }
        let mut entries: Vec<(S, usize)> = Vec::new();
        entries.push((selector, weight));
        proof {
            let w = weights(entries@);
            assert(total(w) == total(w.drop_last()) + w.last());
        }
        Ok(Weighted { entries, total: weight })
    }

    /// This selector with one more entry. A weight of zero is refused with
    /// `NonPositiveWeight`, and one that takes the sum of all weights beyond
    /// `usize::MAX` with `TotalWeightTooLarge`.
    pub fn with_selector(self, selector: S, weight: usize) -> (out: Result<Self, EvolutionError>)
        ensures
            is_weighted_list(self@),
            match out {
                Ok(made) => {
                    &&& weight > 0
                    &&& total(weights(self@)) + weight <= usize::MAX
                    &&& made@ == self@.push((selector, weight))
                },
                Err(e) => e == EvolutionError::ConfigurationError(
                    if weight == 0 {
                        ConfigurationError::NonPositiveWeight
                    } else {
                        ConfigurationError::TotalWeightTooLarge
                    },
                ) && (weight == 0 || total(weights(self@)) + weight > usize::MAX),
            },
    {
        proof {
            use_type_invariant(&self);
        }
        if weight == 0 {
            return Err(EvolutionError::ConfigurationError(ConfigurationError::NonPositiveWeight));
        }
        if weight > usize::MAX - self.total {
            return Err(EvolutionError::ConfigurationError(ConfigurationError::TotalWeightTooLarge));
        }
        let ghost before = self.entries@;
        let mut entries = self.entries;
        entries.push((selector, weight));
        proof {
            assert(weights(entries@) =~= weights(before).push(weight as int));
            total_push(weights(before), weight as int);
        }
        Ok(Weighted { entries, total: self.total + weight })
    }

    /// The sum of the weights of all entries.
    pub fn total_weight(&self) -> (sum: usize)
        ensures
            is_weighted_list(self@),
            sum == total(weights(self@)),
            sum > 0,
    {
        proof {
            use_type_invariant(self);
            let w = weights(self.entries@);
            weight_before_grows(w, 1, w.len() as int);
            weight_before_next(w, 0);
            weight_before_grows(w, 0, 0);
            assert(w.take(w.len() as int) =~= w);
        }
        self.total
    }

    /// The number of entries.
    pub fn len(&self) -> (n: usize)
        ensures
            n == self@.len(),
            n > 0,
    {
        proof {
            use_type_invariant(self);
        }
        self.entries.len()
    }

    /// The position of the first entry whose weight, added to the weights of
    /// all entries before it, exceeds `draw`.
    fn locate(&self, draw: usize) -> (k: usize)
        requires
            draw < total(weights(self@)),
        ensures
            is_located(weights(self@), draw as int, k as int),
    {
        proof {
            use_type_invariant(self);
        }
        let ghost w = weights(self.entries@);
        let mut reached: usize = 0;
        let mut k: usize = 0;
        while k + 1 < self.entries.len()
            invariant
                k < self.entries.len(),
                w == weights(self.entries@),
                is_weighted_list(self.entries@),
                draw < total(w),
                reached == weight_before(w, k as int),
                reached <= draw,
                forall|j: int| 0 <= j < k ==> #[trigger] weight_before(w, j + 1) <= draw,
            decreases self.entries.len() - k,
        {
            let weight = self.entries[k].1;
            proof {
                weight_before_next(w, k as int);
                weight_before_grows(w, k + 1, w.len() as int);
            }
            if draw - reached < weight {
                return k;
            }
            reached = reached + weight;
            k = k + 1;
        }
        proof {
            assert(w.take(k + 1) =~= w);
        }
        k
    }

    /// The position of the first entry whose weight, added to the weights of
    /// all entries before it, exceeds `draw`; `None` where `draw` is not
    /// below the sum of all weights.
    pub fn entry_for(&self, draw: usize) -> (out: Option<usize>)
        ensures
            out is None <==> draw >= total(weights(self@)),
            out matches Some(k) ==> is_located(weights(self@), draw as int, k as int),
    {
        proof {
            use_type_invariant(self);
        }
        if draw >= self.total {
            None
        } else {
            Some(self.locate(draw))
        }
    }

    /// The weighted selector with the entries of `entries`, in their order.
    /// A list without entries is refused with `NoSelectors`; else one with
    /// a weight of zero with `NonPositiveWeight`; else one whose weights add
    /// up beyond `usize::MAX` with `TotalWeightTooLarge`.
    pub fn from_entries(entries: Vec<(S, usize)>) -> (out: Result<Self, EvolutionError>)
        ensures
            match out {
                Ok(made) => made@ == entries@ && is_weighted_list(entries@),
                Err(e) => e == EvolutionError::ConfigurationError(
                    if entries.len() == 0 {
                        ConfigurationError::NoSelectors
                    } else if exists|k: int| 0 <= k < entries.len() && (#[trigger] entries[k]).1 == 0 {
                        ConfigurationError::NonPositiveWeight
                    } else {
                        ConfigurationError::TotalWeightTooLarge
                    },
                ) && !is_weighted_list(entries@),
            },
    {
        if entries.len() == 0 {
            return Err(EvolutionError::ConfigurationError(ConfigurationError::NoSelectors));
        }
        let ghost w = weights(entries@);
        let mut k: usize = 0;
        while k < entries.len()
            invariant
                k <= entries.len(),
                forall|j: int| 0 <= j < k ==> (#[trigger] entries[j]).1 > 0,
            decreases entries.len() - k,
        {
            if entries[k].1 == 0 {
                return Err(EvolutionError::ConfigurationError(ConfigurationError::NonPositiveWeight));
            }
            k = k + 1;
        }
        let mut sum: usize = 0;
        let mut k: usize = 0;
        while k < entries.len()
            invariant
                k <= entries.len(),
                w == weights(entries@),
                forall|i: int| 0 <= i < w.len() ==> #[trigger] w[i] >= 0,
                forall|j: int| 0 <= j < entries.len() ==> (#[trigger] entries[j]).1 > 0,
                sum == weight_before(w, k as int),
            decreases entries.len() - k,
        {
            let weight = entries[k].1;
            proof {
                weight_before_next(w, k as int);
                weight_before_grows(w, k + 1, w.len() as int);
                assert(w.take(w.len() as int) =~= w);
            }
            if weight > usize::MAX - sum {
                return Err(EvolutionError::ConfigurationError(ConfigurationError::TotalWeightTooLarge));
            }
            sum = sum + weight;
            k = k + 1;
        }
        proof {
            assert(w.take(k as int) =~= w);
        }
        Ok(Weighted { entries, total: sum })
    }
}

impl<I, S: Selector<I>> Selector<I> for Weighted<S> {
    open spec fn allows(&self, population: Seq<I>, outcome: Result<int, EvolutionError>) -> bool {
        some_entry_allows(self@, population, outcome)
    }

    fn select<'pop>(&self, population: &'pop Vec<I>, rng: &mut RandomSource) -> (out: Result<
        &'pop I,
        EvolutionError,
    >) {
        let sum = self.total_weight();
        let draw = rng.below(sum);
        let k = self.locate(draw);
        let out = self.entries[k].0.select(population, rng);
        proof {
            if let Ok(chosen) = out {
                let i = choose|i: int|
                    0 <= i < population.len() && population[i] == *chosen
                        && #[trigger] self.entries@[k as int].0.allows(population@, Ok(i));
                assert(self.allows(population@, Ok(i)));
            }
        }
        out
    }
}

} // verus!
