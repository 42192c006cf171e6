//! Per-case and total results of evaluating a genome, with the two ordering
//! policies: `Score` (larger is better) and `Error` (smaller is better).

use std::cmp::Ordering;
use vstd::prelude::*;
use vstd::std_specs::cmp::PartialOrdSpec;
use vstd::std_specs::cmp::PartialOrdSpecImpl;
use vstd::std_specs::convert::FromSpecImpl;

verus! {

/// The sum of a sequence of integers.
pub open spec fn total(amounts: Seq<int>) -> int
    decreases amounts.len(),
{
    if amounts.len() == 0 {
        0
    } else {
        total(amounts.drop_last()) + amounts.last()
    }
}

/// Whatever can be ranked against another of its kind: the larger merit is
/// the better one.
pub trait Ranked {
    /// The rank of this value; larger is better.
    spec fn merit(&self) -> int;

    /// Whether this value is at least as good as `other`.
    fn at_least(&self, other: &Self) -> (b: bool)
        ensures
            b == (self.merit() >= other.merit()),
    ;
}

/// The result of one test case: a number together with the policy that says
/// which of two numbers is the better.
pub trait CaseResult: Ranked + Copy {
    /// The number this result carries.
    spec fn amount(&self) -> int;

    /// The number this result carries.
    fn raw(&self) -> (v: i64)
        ensures
            v == self.amount(),
    ;

    /// The result that carries `v`.
    fn from_raw(v: i64) -> (r: Self)
        ensures
            r.amount() == v,
    ;
}

/// The numbers carried by a sequence of results.
pub open spec fn amounts<R: CaseResult>(results: Seq<R>) -> Seq<int> {
    Seq::new(results.len(), |i: int| results[i].amount())
}

/// The merits of a sequence of results.
pub open spec fn merits<R: Ranked>(results: Seq<R>) -> Seq<int> {
    Seq::new(results.len(), |i: int| results[i].merit())
}

impl Ranked for i64 {
    open spec fn merit(&self) -> int {
        *self as int
    }

    fn at_least(&self, other: &Self) -> (b: bool) {
        *self >= *other
    }
}

/// A result for which a larger value is the better one.
#[derive(Debug, Clone, Copy, PartialEq, Eq, Ord, Structural)]
pub struct Score {
    pub score: i64,
}

impl PartialOrd for Score {
    fn partial_cmp(&self, other: &Self) -> (r: Option<Ordering>) {
        if self.score < other.score {
            Some(Ordering::Less)
        } else if self.score > other.score {
            Some(Ordering::Greater)
        } else {
            Some(Ordering::Equal)
        }
    }
}

impl PartialOrdSpecImpl for Score {
    open spec fn obeys_partial_cmp_spec() -> bool {
        true
    }

    open spec fn partial_cmp_spec(&self, other: &Self) -> Option<Ordering> {
        if self.score < other.score {
            Some(Ordering::Less)
        } else if self.score > other.score {
            Some(Ordering::Greater)
        } else {
            Some(Ordering::Equal)
        }
    }
}

impl From<i64> for Score {
    fn from(score: i64) -> (r: Self) {
        Self { score }
    }
}

impl FromSpecImpl<i64> for Score {
    open spec fn obeys_from_spec() -> bool {
        true
    }

    open spec fn from_spec(score: i64) -> Self {
        Score { score }
    }
}

impl Ranked for Score {
    open spec fn merit(&self) -> int {
        self.score as int
    }

    fn at_least(&self, other: &Self) -> (b: bool) {
        self.score >= other.score
    }
}

impl CaseResult for Score {
    open spec fn amount(&self) -> int {
        self.score as int
    }

    fn raw(&self) -> (v: i64) {
        self.score
    }

    fn from_raw(v: i64) -> (r: Self) {
        Score { score: v }
    }
}

impl Score {
    /// The score that is the sum of `scores`, or `None` where that sum does
    /// not fit in an `i64`.
    pub fn sum(scores: &Vec<i64>) -> (out: Option<Score>)
        ensures
            out == match checked_total(widened(scores@)) {
                Some(t) => Some(Score { score: t }),
                None => None,
            },
    {
        match sum_checked(scores) {
            Some(t) => Some(Score { score: t }),
            None => None,
        }
    }
}

/// A result for which a smaller value is the better one.
#[derive(Debug, Clone, Copy, PartialEq, Eq, Structural)]
pub struct Error {
    pub error: i64,
}

impl PartialOrd for Error {
    fn partial_cmp(&self, other: &Self) -> (r: Option<Ordering>) {
        if self.error > other.error {
            Some(Ordering::Less)
        } else if self.error < other.error {
            Some(Ordering::Greater)
        } else {
            Some(Ordering::Equal)
        }
    }
}

impl PartialOrdSpecImpl for Error {
    open spec fn obeys_partial_cmp_spec() -> bool {
        true
    }

    open spec fn partial_cmp_spec(&self, other: &Self) -> Option<Ordering> {
        if self.error > other.error {
            Some(Ordering::Less)
        } else if self.error < other.error {
            Some(Ordering::Greater)
        } else {
            Some(Ordering::Equal)
        }
    }
}

impl From<i64> for Error {
    fn from(error: i64) -> (r: Self) {
        Self { error }
    }
}

impl FromSpecImpl<i64> for Error {
    open spec fn obeys_from_spec() -> bool {
        true
    }

    open spec fn from_spec(error: i64) -> Self {
        Error { error }
    }
}

impl Ranked for Error {
    open spec fn merit(&self) -> int {
        -(self.error as int)
    }

    fn at_least(&self, other: &Self) -> (b: bool) {
        self.error <= other.error
    }
}

impl CaseResult for Error {
    open spec fn amount(&self) -> int {
        self.error as int
    }

    fn raw(&self) -> (v: i64) {
        self.error
    }

    fn from_raw(v: i64) -> (r: Self) {
        Error { error: v }
    }
}

impl Error {
    /// The error that is the sum of `errors`, or `None` where that sum does
    /// not fit in an `i64`.
    pub fn sum(errors: &Vec<i64>) -> (out: Option<Error>)
        ensures
            out == match checked_total(widened(errors@)) {
                Some(t) => Some(Error { error: t }),
                None => None,
            },
    {
        match sum_checked(errors) {
            Some(t) => Some(Error { error: t }),
            None => None,
        }
    }
}

/// The same numbers as mathematical integers.
pub open spec fn widened(values: Seq<i64>) -> Seq<int> {
    Seq::new(values.len(), |i: int| values[i] as int)
}

/// The sum of `amounts` as an `i64`, where it is one.
pub open spec fn checked_total(amounts: Seq<int>) -> Option<i64> {
    if i64::MIN <= total(amounts) <= i64::MAX {
        Some(total(amounts) as i64)
    } else {
        None
    }
}

/// Adding one more amount to a sequence adds it to the total.
pub proof fn total_push(amounts: Seq<int>, next: int)
    ensures
        total(amounts.push(next)) == total(amounts) + next,
{
    assert(amounts.push(next).drop_last() =~= amounts);
}

/// The sum of `values`, or `None` where it does not fit in an `i64`.
pub fn sum_checked(values: &Vec<i64>) -> (out: Option<i64>)
    ensures
        out == checked_total(widened(values@)),
{
    let ghost all = widened(values@);
    let mut acc: i128 = 0;
    let mut i: usize = 0;
    while i < values.len()
        invariant
            i <= values.len(),
            all == widened(values@),
            acc == total(all.take(i as int)),
            -(i as int) * 0x8000_0000_0000_0000 <= acc <= (i as int) * 0x8000_0000_0000_0000,
        decreases values.len() - i,
    {
        proof {
            total_push(all.take(i as int), values[i as int] as int);
            assert(all.take(i as int).push(values[i as int] as int) =~= all.take(i + 1));
        }
        acc = acc + values[i] as i128;
        i = i + 1;
    }
    proof {
        assert(all.take(i as int) =~= all);
    }
    if acc < i64::MIN as i128 || acc > i64::MAX as i128 {
        None
    } else {
        Some(acc as i64)
    }
}

/// A single result of either policy. Results of different policies cannot
/// be ordered against each other.
#[derive(Debug, Clone, Copy, PartialEq, Eq, Structural)]
pub enum TestResult {
    Score(Score),
    Error(Error),
}

impl PartialOrd for TestResult {
    fn partial_cmp(&self, other: &Self) -> (r: Option<Ordering>) {
        match (self, other) {
            (TestResult::Score(mine), TestResult::Score(theirs)) => mine.partial_cmp(theirs),
            (TestResult::Error(mine), TestResult::Error(theirs)) => mine.partial_cmp(theirs),
            _ => None,
        }
    }
}

impl PartialOrdSpecImpl for TestResult {
    open spec fn obeys_partial_cmp_spec() -> bool {
        true
    }

    open spec fn partial_cmp_spec(&self, other: &Self) -> Option<Ordering> {
        match (self, other) {
            (TestResult::Score(mine), TestResult::Score(theirs)) => PartialOrdSpec::partial_cmp_spec(
                mine,
                theirs,
            ),
            (TestResult::Error(mine), TestResult::Error(theirs)) => PartialOrdSpec::partial_cmp_spec(
                mine,
                theirs,
            ),
            _ => None,
        }
    }
}

/// Whatever carries one result per test case, each of which can be ranked
/// against the result of another for the same case.
pub trait CaseRanked {
    /// The merit of the result of each case, in the order of the cases.
    spec fn case_merits(&self) -> Seq<int>;

    /// The number of cases.
    fn case_count(&self) -> (n: usize)
        ensures
            n == self.case_merits().len(),
    ;

    /// Whether the result of this value for `case` is at least as good as
    /// that of `other`.
    fn case_at_least(&self, case: usize, other: &Self) -> (b: bool)
        requires
            case < self.case_merits().len(),
            case < other.case_merits().len(),
        ensures
            b == (self.case_merits()[case as int] >= other.case_merits()[case as int]),
    ;
}

/// The results of one evaluation: one result per test case, in the order of
/// the cases, and their total.
#[derive(Debug, Clone, PartialEq, Eq)]
pub struct TestResults<R> {
    pub total_result: R,
    pub results: Vec<R>,
}

/// What a `TestResults` value holds.
pub struct TestResultsModel<R> {
    pub total_result: R,
    pub results: Seq<R>,
}

impl<R> View for TestResults<R> {
    type V = TestResultsModel<R>;

    open spec fn view(&self) -> TestResultsModel<R> {
        TestResultsModel { total_result: self.total_result, results: self.results@ }
    }
}

impl<R: PartialOrd> PartialOrd for TestResults<R> {
    fn partial_cmp(&self, other: &Self) -> (r: Option<Ordering>) {
        self.total_result.partial_cmp(&other.total_result)
    }
}

impl<R: PartialOrd> PartialOrdSpecImpl for TestResults<R> {
    open spec fn obeys_partial_cmp_spec() -> bool {
        R::obeys_partial_cmp_spec()
    }

    open spec fn partial_cmp_spec(&self, other: &Self) -> Option<Ordering> {
        PartialOrdSpec::partial_cmp_spec(&self.total_result, &other.total_result)
    }
}

impl<R: Ranked> Ranked for TestResults<R> {
    open spec fn merit(&self) -> int {
        self.total_result.merit()
    }

    fn at_least(&self, other: &Self) -> (b: bool) {
        self.total_result.at_least(&other.total_result)
    }
}

impl<R: Ranked> CaseRanked for TestResults<R> {
    open spec fn case_merits(&self) -> Seq<int> {
        merits(self.results@)
    }

    fn case_count(&self) -> (n: usize) {
        self.results.len()
    }

    fn case_at_least(&self, case: usize, other: &Self) -> (b: bool) {
        self.results[case].at_least(&other.results[case])
    }
}

impl<R: CaseResult> TestResults<R> {
    /// Whether the total is the sum of the per-case results.
    pub open spec fn adds_up(&self) -> bool {
        self.total_result.amount() == total(amounts(self.results@))
    }

    /// The results made of `results`, with their sum as the total; `None`
    /// where that sum does not fit in an `i64`.
    pub fn from_results(results: Vec<R>) -> (out: Option<Self>)
        ensures
            match checked_total(amounts(results@)) {
                Some(t) => out matches Some(made) && made.results@ == results@
                    && made.total_result.amount() == t,
                None => out is None,
            },
    {
        let ghost all = amounts(results@);
        let mut acc: i128 = 0;
        let mut i: usize = 0;
        while i < results.len()
            invariant
                i <= results.len(),
                all == amounts(results@),
                acc == total(all.take(i as int)),
                -(i as int) * 0x8000_0000_0000_0000 <= acc <= (i as int) * 0x8000_0000_0000_0000,
            decreases results.len() - i,
        {
            let v = results[i].raw();
            proof {
                total_push(all.take(i as int), v as int);
                assert(all.take(i as int).push(v as int) =~= all.take(i + 1));
            }
            acc = acc + v as i128;
            i = i + 1;
        }
        proof {
            assert(all.take(i as int) =~= all);
        }
        if acc < i64::MIN as i128 || acc > i64::MAX as i128 {
            None
        } else {
            let total_result = R::from_raw(acc as i64);
            Some(TestResults { total_result, results })
        }
    }
}

} // verus!
