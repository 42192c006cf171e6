//! Lexicase selection: candidates are filtered case by case, in a random
//! order of the cases, keeping at each case only those that are best on it.

use crate::error::ConfigurationError;
use crate::error::EvolutionError;
use crate::random::RandomSource;
use crate::selector::Selector;
use crate::test_results::CaseRanked;
use vstd::prelude::*;

verus! {

/// The merit of every member of a population on every case: one row per
/// member, one entry per case.
pub open spec fn case_table<I: CaseRanked>(population: Seq<I>) -> Seq<Seq<int>> {
    Seq::new(population.len(), |i: int| population[i].case_merits())
}

/// Whether every row of `table` has exactly `case_count` entries.
pub open spec fn is_uniform(table: Seq<Seq<int>>, case_count: int) -> bool {
    forall|i: int| 0 <= i < table.len() ==> (#[trigger] table[i]).len() == case_count
}

/// The cases `0`, `1`, ... below `case_count`, in ascending order.
pub open spec fn all_cases(case_count: usize) -> Seq<usize> {
    Seq::new(case_count as nat, |k: int| k as usize)
}

/// Whether `order` is a rearrangement of the cases below `case_count`: it
/// names each of them once and nothing else.
pub open spec fn is_case_order(order: Seq<usize>, case_count: usize) -> bool {
    order.to_multiset() == all_cases(case_count).to_multiset()
}

/// A case order has one entry per case, names only cases, and names each of
/// them.
pub proof fn case_order_covers(order: Seq<usize>, case_count: usize)
    requires
        is_case_order(order, case_count),
    ensures
        order.len() == case_count,
        forall|k: int| 0 <= k < order.len() ==> (#[trigger] order[k]) < case_count,
        forall|c: usize| c < case_count ==> order.contains(c),
{
    let cases = all_cases(case_count);
    order.to_multiset_ensures();
    cases.to_multiset_ensures();
    assert forall|k: int| 0 <= k < order.len() implies (#[trigger] order[k]) < case_count by {
        assert(order.to_multiset().count(order[k]) > 0);
    }
    assert forall|c: usize| c < case_count implies order.contains(c) by {
        assert(cases[c as int] == c);
        assert(cases.to_multiset().count(c) > 0);
    }
}

/// Those of `candidates` whose merit on `case` is the largest that any of
/// them has on it.
pub open spec fn keep_best(table: Seq<Seq<int>>, candidates: Set<int>, case: int) -> Set<int> {
    Set::new(
        |i: int|
            candidates.contains(i) && forall|j: int|
                candidates.contains(j) ==> table[j][case] <= table[i][case],
    )
}

/// The members that are left after filtering all of them on the cases of
/// `order`, one case after the other.
pub open spec fn survivors(table: Seq<Seq<int>>, order: Seq<usize>) -> Set<int>
    decreases order.len(),
{
    if order.len() == 0 {
        Set::new(|i: int| 0 <= i < table.len())
    } else {
        keep_best(table, survivors(table, order.drop_last()), order.last() as int)
    }
}

/// Filtering on further cases never brings a member back.
pub proof fn survivors_shrink(table: Seq<Seq<int>>, order: Seq<usize>, k: int, i: int)
    requires
        0 <= k <= order.len(),
        survivors(table, order).contains(i),
    ensures
        survivors(table, order.take(k)).contains(i),
    decreases order.len(),
{
    if k == order.len() {
        assert(order.take(k) =~= order);
    } else {
        assert(order.drop_last().take(k) =~= order.take(k));
        survivors_shrink(table, order.drop_last(), k, i);
    }
}

/// Once a single member is left, it stays the only one however many more
/// cases follow.
pub proof fn sole_survivor_stays(table: Seq<Seq<int>>, order: Seq<usize>, k: int, sole: int)
    requires
        0 <= k <= order.len(),
        survivors(table, order.take(k)) =~= set![sole],
    ensures
        survivors(table, order) =~= set![sole],
    decreases order.len(),
{
    if k == order.len() {
        assert(order.take(k) =~= order);
    } else {
        assert(order.drop_last().take(k) =~= order.take(k));
        sole_survivor_stays(table, order.drop_last(), k, sole);
        let before = survivors(table, order.drop_last());
    }
}

/// Whether member `i` is left after filtering on the cases in some order.
pub open spec fn may_survive(table: Seq<Seq<int>>, case_count: usize, i: int) -> bool {
    exists|order: Seq<usize>|
        is_case_order(order, case_count) && #[trigger] survivors(table, order).contains(i)
}

/// Chooses by lexicase selection over `case_count` test cases.
#[derive(Debug, Clone, Copy, PartialEq, Eq, Structural)]
pub struct Lexicase {
    pub case_count: usize,
}

/// Whether `items` holds the number `i`.
pub open spec fn holds(items: Seq<usize>, i: int) -> bool {
    exists|k: int| 0 <= k < items.len() && #[trigger] items[k] == i
}

/// The set of the numbers that `items` holds.
pub open spec fn held(items: Seq<usize>) -> Set<int> {
    Set::new(|i: int| holds(items, i))
}

/// Whether `items` holds positions of a collection of `len` items in
/// ascending order, none of them twice.
pub open spec fn is_ascending_below(items: Seq<usize>, len: int) -> bool {
    &&& forall|k: int| 0 <= k < items.len() ==> (#[trigger] items[k]) < len
    &&& forall|k: int, l: int| 0 <= k < l < items.len() ==> items[k] < items[l]
}

/// Whether every member of `population` has a result for `case`.
pub open spec fn all_have_case<I: CaseRanked>(population: Seq<I>, case: int) -> bool {
    forall|i: int| 0 <= i < population.len() ==> case < (#[trigger] population[i]).case_merits().len()
}

/// Whether `i` does on `case` as well as the best of the first `upto` of
/// `candidates`.
pub open spec fn tops(table: Seq<Seq<int>>, candidates: Seq<usize>, case: int, upto: int, i: int) -> bool {
    forall|t: int| 0 <= t < upto ==> table[#[trigger] candidates[t] as int][case] <= table[i][case]
}

proof fn holds_after_push(items: Seq<usize>, next: usize, i: int)
    ensures
        holds(items.push(next), i) <==> (holds(items, i) || i == next),
{
    let longer = items.push(next);
    if holds(items, i) {
        let k = choose|k: int| 0 <= k < items.len() && #[trigger] items[k] == i;
        assert(longer[k] == i);
    }
    if i == next {
        assert(longer[items.len() as int] == i);
    }
    if holds(longer, i) {
        let k = choose|k: int| 0 <= k < longer.len() && #[trigger] longer[k] == i;
        if k < items.len() {
            assert(items[k] == i);
        }
    }
}

proof fn holds_in_longer_prefix(items: Seq<usize>, k: int, i: int)
    requires
        0 <= k < items.len(),
    ensures
        holds(items.take(k + 1), i) <==> (holds(items.take(k), i) || i == items[k]),
{
    assert(items.take(k + 1) =~= items.take(k).push(items[k]));
    holds_after_push(items.take(k), items[k], i);
}

/// The position in `candidates` of one that no other candidate beats on
/// `case`.
fn case_top<I: CaseRanked>(population: &Vec<I>, candidates: &Vec<usize>, case: usize) -> (top: usize)
    requires
        candidates.len() > 0,
        is_ascending_below(candidates@, population.len() as int),
        all_have_case(population@, case as int),
    ensures
        top < candidates.len(),
        tops(
            case_table(population@),
            candidates@,
            case as int,
            candidates.len() as int,
            candidates[top as int] as int,
        ),
{
    let ghost table = case_table(population@);
    let mut top: usize = 0;
    let mut k: usize = 1;
    while k < candidates.len()
        invariant
            1 <= k <= candidates.len(),
            top < k,
            is_ascending_below(candidates@, population.len() as int),
            all_have_case(population@, case as int),
            table == case_table(population@),
            tops(table, candidates@, case as int, k as int, candidates[top as int] as int),
        decreases candidates.len() - k,
    {
        let c = candidates[k];
        let t = candidates[top];
        if !population[t].case_at_least(case, &population[c]) {
            top = k;
        }
        k = k + 1;
    }
    top
}

/// Those of `candidates` that are best on `case`, in their order.
pub fn keep_case_best<I: CaseRanked>(
    population: &Vec<I>,
    candidates: &Vec<usize>,
    case: usize,
) -> (kept: Vec<usize>)
    requires
        candidates.len() > 0,
        is_ascending_below(candidates@, population.len() as int),
        all_have_case(population@, case as int),
    ensures
        kept.len() > 0,
        is_ascending_below(kept@, population.len() as int),
        held(kept@) =~= keep_best(case_table(population@), held(candidates@), case as int),
{
    let ghost table = case_table(population@);
    let top_at = case_top(population, candidates, case);
    let top = candidates[top_at];
    let ghost level = table[top as int][case as int];
    let mut kept: Vec<usize> = Vec::new();
    let mut k: usize = 0;
    while k < candidates.len()
        invariant
            k <= candidates.len(),
            top_at < candidates.len(),
            top == candidates[top_at as int],
            is_ascending_below(candidates@, population.len() as int),
            all_have_case(population@, case as int),
            table == case_table(population@),
            level == table[top as int][case as int],
            is_ascending_below(kept@, population.len() as int),
            forall|m: int|
                0 <= m < kept.len() && k < candidates.len() ==> (#[trigger] kept[m]) < candidates[k as int],
            forall|i: int|
                holds(kept@, i) <==> (holds(candidates@.take(k as int), i) && table[i][case as int]
                    >= level),
        decreases candidates.len() - k,
    {
        let c = candidates[k];
        let ghost before = kept@;
        let keep = population[c].case_at_least(case, &population[top]);
        if keep {
            kept.push(c);
        }
        proof {
            assert forall|i: int|
                holds(kept@, i) <==> (holds(candidates@.take(k + 1), i) && table[i][case as int]
                    >= level) by {
                holds_in_longer_prefix(candidates@, k as int, i);
                if keep {
                    holds_after_push(before, c, i);
                }
            }
        }
        k = k + 1;
    }
    proof {
        assert(candidates@.take(k as int) =~= candidates@);
        let cands = held(candidates@);
        let want = keep_best(table, cands, case as int);
        assert(holds(kept@, top as int));
        assert forall|i: int| want.contains(i) implies held(kept@).contains(i) by {
            assert(cands.contains(top as int));
        }
    }
    kept
}

/// Whether every member of `population` carries `case_count` results.
pub fn has_case_count<I: CaseRanked>(population: &Vec<I>, case_count: usize) -> (b: bool)
    ensures
        b == is_uniform(case_table(population@), case_count as int),
{
    let ghost table = case_table(population@);
    let mut i: usize = 0;
    while i < population.len()
        invariant
            i <= population.len(),
            table == case_table(population@),
            forall|j: int| 0 <= j < i ==> (#[trigger] table[j]).len() == case_count,
        decreases population.len() - i,
    {
        if population[i].case_count() != case_count {
            assert(table[i as int].len() != case_count);
            return false;
        }
        i = i + 1;
    }
    true
}

/// The cases below `case_count`, in ascending order.
fn cases_in_order(case_count: usize) -> (cases: Vec<usize>)
    ensures
        cases@ == all_cases(case_count),
{
    let mut cases: Vec<usize> = Vec::new();
    let mut c: usize = 0;
    while c < case_count
        invariant
            c <= case_count,
            cases@ =~= all_cases(c),
        decreases case_count - c,
    {
        cases.push(c);
        c = c + 1;
    }
    cases
}

impl Lexicase {
    /// A lexicase selector for individuals with `case_count` test cases.
    pub fn new(case_count: usize) -> (selector: Self)
        ensures
            selector.case_count == case_count,
    {
        Lexicase { case_count }
    }

    /// The error with which selection on `population` is refused: an empty
    /// population, or a member whose number of results is not `case_count`.
    pub open spec fn refusal<I: CaseRanked>(&self, population: Seq<I>) -> Option<EvolutionError> {
        if population.len() == 0 {
            Some(EvolutionError::EmptyCollection)
        } else if !is_uniform(case_table(population), self.case_count as int) {
            Some(EvolutionError::ConfigurationError(ConfigurationError::CaseCountMismatch))
        } else {
            None
        }
    }

    /// The positions of the members of `population` that are left after
    /// filtering on the cases of `order`, one after the other, in ascending
    /// order. At least one member is always left.
    pub fn survivors_in_order<I: CaseRanked>(&self, population: &Vec<I>, order: &Vec<usize>) -> (out:
        Result<Vec<usize>, EvolutionError>)
        requires
            forall|k: int| 0 <= k < order.len() ==> (#[trigger] order[k]) < self.case_count,
        ensures
            match out {
                Ok(left) => {
                    &&& self.refusal(population@) is None
                    &&& left.len() > 0
                    &&& is_ascending_below(left@, population.len() as int)
                    &&& held(left@) =~= survivors(case_table(population@), order@)
                },
                Err(e) => self.refusal(population@) == Some(e),
            },
    {
        if population.len() == 0 {
            return Err(EvolutionError::EmptyCollection);
        }
        if !has_case_count(population, self.case_count) {
            return Err(EvolutionError::ConfigurationError(ConfigurationError::CaseCountMismatch));
        }
        let ghost table = case_table(population@);
        let mut left: Vec<usize> = Vec::new();
        let mut i: usize = 0;
        while i < population.len()
            invariant
                i <= population.len(),
                left.len() == i,
                forall|k: int| 0 <= k < i ==> left[k] == k,
            decreases population.len() - i,
        {
            left.push(i);
            i = i + 1;
        }
        proof {
            assert forall|j: int|
                held(left@).contains(j) <==> survivors(table, order@.take(0)).contains(j) by {
                if 0 <= j < population.len() {
                    assert(left[j] == j);
                }
            }
        }
        let mut k: usize = 0;
        while k < order.len() && left.len() > 1
            invariant
                k <= order.len(),
                population.len() > 0,
                table == case_table(population@),
                is_uniform(table, self.case_count as int),
                forall|k: int| 0 <= k < order.len() ==> (#[trigger] order[k]) < self.case_count,
                left.len() > 0,
                is_ascending_below(left@, population.len() as int),
                held(left@) =~= survivors(table, order@.take(k as int)),
            decreases order.len() - k,
        {
            let case = order[k];
            proof {
                assert forall|j: int| 0 <= j < population.len() implies case < (
                #[trigger] population[j]).case_merits().len() by {
                    assert(table[j].len() == self.case_count);
                }
                assert(order@.take(k + 1).drop_last() =~= order@.take(k as int));
            }
            left = keep_case_best(population, &left, case);
            k = k + 1;
        }
        proof {
            if k < order.len() {
                let sole = left[0] as int;
                sole_survivor_stays(table, order@, k as int, sole);
            } else {
                assert(order@.take(k as int) =~= order@);
            }
        }
        Ok(left)
    }
}

impl<I: CaseRanked> Selector<I> for Lexicase {
    open spec fn allows(&self, population: Seq<I>, outcome: Result<int, EvolutionError>) -> bool {
        match outcome {
            Ok(i) => self.refusal(population) is None && may_survive(
                case_table(population),
                self.case_count,
                i,
            ),
            Err(e) => self.refusal(population) == Some(e),
        }
    }

    fn select<'pop>(&self, population: &'pop Vec<I>, rng: &mut RandomSource) -> (out: Result<
        &'pop I,
        EvolutionError,
    >) {
        let mut order = cases_in_order(self.case_count);
        rng.shuffle(&mut order);
        proof {
            case_order_covers(order@, self.case_count);
        }
        match self.survivors_in_order(population, &order) {
            Err(e) => Err(e),
            Ok(left) => {
                let pick = if left.len() == 1 {
                    0
                } else {
                    rng.below(left.len())
                };
                let chosen = left[pick];
                proof {
                    assert(held(left@).contains(chosen as int));
                    assert(self.allows(population@, Ok(chosen as int)));
                }
                Ok(&population[chosen])
            },
        }
    }
}

/// Whether member `i` does on every case at least as well as member `j`,
/// and better on at least one.
pub open spec fn dominates(table: Seq<Seq<int>>, case_count: int, i: int, j: int) -> bool {
    &&& forall|c: int| 0 <= c < case_count ==> table[j][c] <= #[trigger] table[i][c]
    &&& exists|c: int| 0 <= c < case_count && table[j][c] < #[trigger] table[i][c]
}

/// If one member of a population does at least as well as every other on
/// every case, and better than each other on some case, then lexicase
/// selection chooses it, whatever the order of the cases.
pub proof fn lexicase_chooses_dominant<I: CaseRanked>(
    selector: Lexicase,
    population: Seq<I>,
    dominant: int,
    outcome: Result<int, EvolutionError>,
)
    requires
        0 <= dominant < population.len(),
        is_uniform(case_table(population), selector.case_count as int),
        forall|j: int|
            0 <= j < population.len() && j != dominant ==> #[trigger] dominates(
                case_table(population),
                selector.case_count as int,
                dominant,
                j,
            ),
        selector.allows(population, outcome),
    ensures
        outcome == Ok::<int, EvolutionError>(dominant),
{
    let table = case_table(population);
    let n = selector.case_count as int;
    if let Ok(i) = outcome {
        let order = choose|order: Seq<usize>|
            is_case_order(order, selector.case_count) && #[trigger] survivors(table, order).contains(i);
        case_order_covers(order, selector.case_count);
        assert forall|j: int, c: int| 0 <= j < table.len() && 0 <= c < n implies #[trigger] table[j][c]
            <= table[dominant][c] by {
            if j != dominant {
                assert(dominates(table, n, dominant, j));
            }
        }
        dominant_survives(table, order, n, dominant);
        if i != dominant {
            // On some case the dominant member is better than `i`. When that case
            // comes up the dominant member is still there, so `i` is not kept.
            assert(dominates(table, n, dominant, i));
            let c = choose|c: int| 0 <= c < n && table[i][c] < #[trigger] table[dominant][c];
            assert(order.contains(c as usize));
            let p = choose|p: int| 0 <= p < order.len() && order[p] == c as usize;
            survivors_shrink(table, order, p + 1, i);
            dominant_survives(table, order.take(p), n, dominant);
            assert(order.take(p + 1).drop_last() =~= order.take(p));
        }
    }
}

/// A member that does at least as well as every other on every case is
/// never filtered out.
pub proof fn dominant_survives(table: Seq<Seq<int>>, order: Seq<usize>, case_count: int, dominant: int)
    requires
        0 <= dominant < table.len(),
        forall|k: int| 0 <= k < order.len() ==> (#[trigger] order[k]) < case_count,
        forall|j: int, c: int|
            0 <= j < table.len() && 0 <= c < case_count ==> #[trigger] table[j][c] <= table[dominant][c],
    ensures
        survivors(table, order).contains(dominant),
        forall|j: int| survivors(table, order).contains(j) ==> 0 <= j < table.len(),
    decreases order.len(),
{
    if order.len() > 0 {
        dominant_survives(table, order.drop_last(), case_count, dominant);
        let before = survivors(table, order.drop_last());
        let c = order.last() as int;
    }
}

} // verus!
