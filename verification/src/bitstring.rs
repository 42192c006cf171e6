//! Bitstring genomes: counting set bits, random bitstrings, two-point
//! crossover and mutation of one bit in `length` on average.

use crate::error::EvolutionError;
use crate::error::StageFailure;
use crate::individual::Individual;
use crate::operator::stages::Mutator;
use crate::operator::stages::Recombinator;
use crate::operator::stages::Scorer;
use crate::random::RandomSource;
use crate::test_results::amounts;
use crate::test_results::total;
use crate::test_results::CaseResult;
use crate::test_results::Score;
use crate::test_results::TestResults;
use crate::test_results::TestResultsModel;
use vstd::prelude::*;

verus! {

/// A genome of bits.
pub type Bitstring = Vec<bool>;

/// The number of bits of `bits` that are set.
pub open spec fn ones(bits: Seq<bool>) -> int
    decreases bits.len(),
{
    if bits.len() == 0 {
        0
    } else {
        ones(bits.drop_last()) + if bits.last() {
            1int
        } else {
            0int
        }
    }
}

/// The number of bits of `bits` that are set.
pub fn count_ones(bits: &Bitstring) -> (count: i64)
    requires
        bits.len() <= i64::MAX,
    ensures
        count == ones(bits@),
{
    let mut count: i64 = 0;
    let mut i: usize = 0;
    while i < bits.len()
        invariant
            i <= bits.len(),
            bits.len() <= i64::MAX,
            count == ones(bits@.take(i as int)),
            0 <= count <= i,
        decreases bits.len() - i,
    {
        proof {
            assert(bits@.take(i + 1).drop_last() =~= bits@.take(i as int));
        }
        if bits[i] {
            count = count + 1;
        }
        i = i + 1;
    }
    proof {
        assert(bits@.take(i as int) =~= bits@);
    }
    count
}

/// A bitstring of `len` random bits.
pub fn make_bitstring(len: usize, rng: &mut RandomSource) -> (bits: Bitstring)
    ensures
        bits.len() == len,
{
    let mut bits: Vec<bool> = Vec::new();
    let mut i: usize = 0;
    while i < len
        invariant
            i <= len,
            bits.len() == i,
        decreases len - i,
    {
        bits.push(rng.coin());
        i = i + 1;
    }
    bits
}

/// The bits of `first`, but from position `from` up to and not including
/// position `to` those of `second`.
pub open spec fn crossed(first: Seq<bool>, second: Seq<bool>, from: int, to: int) -> Seq<bool> {
    Seq::new(
        first.len(),
        |i: int|
            if from <= i < to {
                second[i]
            } else {
                first[i]
            },
    )
}

/// The child of `first` and `second` that has the bits of `second` from
/// position `from` up to and not including position `to`, and those of
/// `first` elsewhere.
pub fn two_point_xo_at(first: &Bitstring, second: &Bitstring, from: usize, to: usize) -> (child:
    Bitstring)
    requires
        first.len() == second.len(),
        from <= to <= first.len(),
    ensures
        child@ == crossed(first@, second@, from as int, to as int),
{
    let mut child: Vec<bool> = Vec::new();
    let mut i: usize = 0;
    while i < first.len()
        invariant
            i <= first.len(),
            first.len() == second.len(),
            child.len() == i,
            forall|j: int| 0 <= j < i ==> child[j] == crossed(first@, second@, from as int, to as int)[j],
        decreases first.len() - i,
    {
        if from <= i && i < to {
            child.push(second[i]);
        } else {
            child.push(first[i]);
        }
        i = i + 1;
    }
    child
}

/// Whether `child` is `first` with one stretch of bits taken from `second`.
pub open spec fn is_two_point_child(first: Seq<bool>, second: Seq<bool>, child: Seq<bool>) -> bool {
    exists|from: int, to: int|
        0 <= from <= to < first.len() && child == #[trigger] crossed(first, second, from, to)
}

/// What two-point crossover may make of two bitstrings: parents of
/// different lengths, or without any bit, are refused; otherwise the child
/// is the first parent with one stretch of bits taken from the second.
pub open spec fn may_cross(
    first: Seq<bool>,
    second: Seq<bool>,
    outcome: Result<Bitstring, EvolutionError>,
) -> bool {
    match outcome {
        Ok(child) => first.len() == second.len() && first.len() > 0 && is_two_point_child(
            first,
            second,
            child@,
        ),
        Err(e) => (first.len() != second.len() || first.len() == 0) && e
            == EvolutionError::PipelineStageFailure(StageFailure::Recombination),
    }
}

/// Two-point crossover of `first` and `second` at two random positions.
pub fn two_point_xo(first: &Bitstring, second: &Bitstring, rng: &mut RandomSource) -> (out: Result<
    Bitstring,
    EvolutionError,
>)
    ensures
        may_cross(first@, second@, out),
{
    let len = first.len();
    if len != second.len() || len == 0 {
        return Err(EvolutionError::PipelineStageFailure(StageFailure::Recombination));
    }
    let one = rng.below(len);
    let other = rng.below(len);
    let (from, to) = if other < one {
        (other, one)
    } else {
        (one, other)
    };
    let child = two_point_xo_at(first, second, from, to);
    Ok(child)
}

/// A copy of `bits` in which the bits at the positions where `flips` holds
/// `true` are flipped. Positions that `flips` does not reach stay as they
/// are.
pub fn flip_where(bits: &Bitstring, flips: &Vec<bool>) -> (flipped: Bitstring)
    ensures
        flipped.len() == bits.len(),
        forall|i: int|
            0 <= i < bits.len() ==> #[trigger] flipped[i] == (bits[i] != (i < flips.len() && flips[i])),
{
    let mut flipped: Vec<bool> = Vec::new();
    let mut i: usize = 0;
    while i < bits.len()
        invariant
            i <= bits.len(),
            flipped.len() == i,
            forall|j: int|
                0 <= j < i ==> #[trigger] flipped[j] == (bits[j] != (j < flips.len() && flips[j])),
        decreases bits.len() - i,
    {
        let flip = i < flips.len() && flips[i];
        flipped.push(bits[i] != flip);
        i = i + 1;
    }
    flipped
}

/// A copy of `bits` in which each bit has been flipped with a chance of one
/// in the number of bits: a mutation of `bits`, as `is_mutation` says.
pub fn mutate_one_over_length(bits: &Bitstring, rng: &mut RandomSource) -> (mutated: Bitstring)
    ensures
        mutated.len() == bits.len(),
        is_mutation(bits@, mutated@),
{
    let len = bits.len();
    let mut flips: Vec<bool> = Vec::new();
    let ghost mut draws: Seq<usize> = Seq::empty();
    let mut i: usize = 0;
    while i < len
        invariant
            i <= len,
            flips.len() == i,
            is_drawn_below(draws, i as nat, len as nat),
            forall|j: int| 0 <= j < i ==> #[trigger] flips[j] == (draws[j] == 0),
        decreases len - i,
    {
        let drawn = rng.below(len);
        flips.push(drawn == 0);
        proof {
            draws = draws.push(drawn);
        }
        i = i + 1;
    }
    let mutated = flip_where(bits, &flips);
    proof {
        assert(mutated@ =~= flipped_at_zero(bits@, draws));
    }
    mutated
}

/// The recombinator that does two-point crossover.
#[derive(Debug, Clone, Copy, PartialEq, Eq, Structural)]
pub struct TwoPointXo;

impl Recombinator<Bitstring> for TwoPointXo {
    open spec fn may_recombine(
        &self,
        first: Bitstring,
        second: Bitstring,
        outcome: Result<Bitstring, EvolutionError>,
    ) -> bool {
        may_cross(first@, second@, outcome)
    }

    fn recombine(&self, first: Bitstring, second: Bitstring, rng: &mut RandomSource) -> (out: Result<
        Bitstring,
        EvolutionError,
    >) {
        two_point_xo(&first, &second, rng)
    }
}

/// The mutator that flips each bit with a chance of one in the number of
/// bits.
#[derive(Debug, Clone, Copy, PartialEq, Eq, Structural)]
pub struct WithOneOverLength;

impl Mutator<Bitstring> for WithOneOverLength {
    open spec fn may_mutate(&self, genome: Bitstring, outcome: Result<Bitstring, EvolutionError>) -> bool {
        outcome matches Ok(mutated) && is_mutation(genome@, mutated@)
    }

    fn mutate(&self, genome: Bitstring, rng: &mut RandomSource) -> (out: Result<
        Bitstring,
        EvolutionError,
    >) {
        Ok(mutate_one_over_length(&genome, rng))
    }
}

/// Whether `draws` holds `count` numbers, each of them below `bound`.
pub open spec fn is_drawn_below(draws: Seq<usize>, count: nat, bound: nat) -> bool {
    &&& draws.len() == count
    &&& forall|i: int| 0 <= i < draws.len() ==> (#[trigger] draws[i]) < bound
}

/// The bits of `bits`, each of them flipped where the number drawn for it
/// is zero.
pub open spec fn flipped_at_zero(bits: Seq<bool>, draws: Seq<usize>) -> Seq<bool> {
    Seq::new(bits.len(), |i: int| bits[i] != (draws[i] == 0))
}

/// Whether `mutated` is what mutation may make of `bits`: for every bit
/// one number below the number of bits is drawn, and `mutated` has the bits
/// of `bits`, each of them flipped where its number is zero. So a bitstring
/// of a single bit always has that bit flipped.
pub open spec fn is_mutation(bits: Seq<bool>, mutated: Seq<bool>) -> bool {
    exists|draws: Seq<usize>|
        is_drawn_below(draws, bits.len(), bits.len()) && mutated == #[trigger] flipped_at_zero(
            bits,
            draws,
        )
}

/// One score per bit: 1 for a bit that is set, 0 for one that is not.
pub open spec fn bit_scores(bits: Seq<bool>) -> Seq<Score> {
    Seq::new(
        bits.len(),
        |i: int|
            Score {
                score: if bits[i] {
                    1i64
                } else {
                    0i64
                },
            },
    )
}

/// No more bits are set than there are.
pub proof fn ones_bounded(bits: Seq<bool>)
    ensures
        0 <= ones(bits) <= bits.len(),
    decreases bits.len(),
{
    if bits.len() > 0 {
        ones_bounded(bits.drop_last());
    }
}

/// The scores of the bits add up to the number of set bits.
pub proof fn bit_scores_add_up(bits: Seq<bool>)
    ensures
        total(amounts(bit_scores(bits))) == ones(bits),
    decreases bits.len(),
{
    let all = amounts(bit_scores(bits));
    if bits.len() > 0 {
        bit_scores_add_up(bits.drop_last());
        assert(all.drop_last() =~= amounts(bit_scores(bits.drop_last())));
    }
}

/// `n`, or the largest `i64` where `n` is larger than that.
pub open spec fn capped(n: int) -> i64 {
    if n <= i64::MAX {
        n as i64
    } else {
        i64::MAX
    }
}

/// The scorer of the count-ones problem: every bit is a test case, passed
/// where the bit is set, and the total is the number of set bits (capped at
/// the largest `i64`, which no bitstring in memory reaches).
#[derive(Debug, Clone, Copy, PartialEq, Eq, Structural)]
pub struct CountOnes;

impl Scorer<Bitstring> for CountOnes {
    type Result = Score;

    open spec fn scored(&self, genome: &Bitstring) -> TestResultsModel<Score> {
        TestResultsModel {
            total_result: Score { score: capped(ones(genome@)) },
            results: bit_scores(genome@),
        }
    }

    fn score(&self, genome: &Bitstring) -> (out: TestResults<Score>) {
        let mut results: Vec<Score> = Vec::new();
        let mut count: i64 = 0;
        let mut i: usize = 0;
        while i < genome.len()
            invariant
                i <= genome.len(),
                results.len() == i,
                forall|j: int| 0 <= j < i ==> results[j] == bit_scores(genome@)[j],
                count == capped(ones(genome@.take(i as int))),
            decreases genome.len() - i,
        {
            proof {
                assert(genome@.take(i + 1).drop_last() =~= genome@.take(i as int));
                ones_bounded(genome@.take(i as int));
            }
            if genome[i] {
                results.push(Score { score: 1 });
                if count < i64::MAX {
                    count = count + 1;
                }
            } else {
                results.push(Score { score: 0 });
            }
            i = i + 1;
        }
        proof {
            assert(genome@.take(i as int) =~= genome@);
            assert(results@ =~= bit_scores(genome@));
        }
        TestResults { total_result: Score { score: count }, results }
    }
}

/// One number per bit: 1 for a bit that is set, 0 for one that is not.
pub fn ones_by_bit(bits: &Bitstring) -> (values: Vec<i64>)
    ensures
        values.len() == bits.len(),
        forall|i: int|
            0 <= i < bits.len() ==> #[trigger] values[i] == if bits[i] {
                1i64
            } else {
                0i64
            },
{
    let mut values: Vec<i64> = Vec::new();
    let mut i: usize = 0;
    while i < bits.len()
        invariant
            i <= bits.len(),
            values.len() == i,
            forall|j: int|
                0 <= j < i ==> #[trigger] values[j] == if bits[j] {
                    1i64
                } else {
                    0i64
                },
        decreases bits.len() - i,
    {
        if bits[i] {
            values.push(1);
        } else {
            values.push(0);
        }
        i = i + 1;
    }
    values
}

/// Whether all bits of `bits` are the same.
pub open spec fn is_uniform_block(bits: Seq<bool>) -> bool {
    forall|i: int, j: int| 0 <= i < bits.len() && 0 <= j < bits.len() ==> bits[i] == bits[j]
}

/// The values of the hierarchical if-and-only-if problem: a block of fewer
/// than two bits has its length as its only value; a longer block has the
/// values of its first half, then those of its second half, then its own
/// length where all its bits are the same, and 0 where they are not.
pub open spec fn hiff_values(bits: Seq<bool>) -> Seq<i64>
    decreases bits.len(),
{
    if bits.len() < 2 {
        seq![bits.len() as i64]
    } else {
        let half = bits.len() as int / 2;
        hiff_values(bits.take(half)) + hiff_values(bits.skip(half)) + seq![
            if is_uniform_block(bits) {
                capped(bits.len() as int)
            } else {
                0i64
            },
        ]
    }
}

/// The number of values that a block of `len` bits has: one for a block
/// without bits, and one less than twice the number of bits for any other.
pub open spec fn hiff_count(len: nat) -> int {
    if len == 0 {
        1
    } else {
        2 * len - 1
    }
}

/// Every bitstring has as many values as its length says.
pub proof fn hiff_values_are_counted(bits: Seq<bool>)
    ensures
        hiff_values(bits).len() == hiff_count(bits.len()),
    decreases bits.len(),
{
    if bits.len() >= 2 {
        let half = bits.len() as int / 2;
        hiff_values_are_counted(bits.take(half));
        hiff_values_are_counted(bits.skip(half));
    }
}

/// The number of values that `hiff` gives a bitstring of `bit_length` bits,
/// or `None` where that number does not fit in a `usize`.
pub fn hiff_case_count(bit_length: usize) -> (count: Option<usize>)
    ensures
        match count {
            Some(n) => n == hiff_count(bit_length as nat),
            None => hiff_count(bit_length as nat) > usize::MAX,
        },
{
    if bit_length == 0 {
        Some(1)
    } else if bit_length - 1 > usize::MAX - bit_length {
        None
    } else {
        Some(bit_length - 1 + bit_length)
    }
}

/// A block is uniform exactly where both of its halves are and their first
/// bits are the same.
proof fn uniform_by_halves(bits: Seq<bool>, half: int)
    requires
        0 < half < bits.len(),
    ensures
        is_uniform_block(bits) <==> (is_uniform_block(bits.take(half)) && is_uniform_block(
            bits.skip(half),
        ) && bits[0] == bits[half]),
{
    let left = bits.take(half);
    let right = bits.skip(half);
    if is_uniform_block(left) && is_uniform_block(right) && bits[0] == bits[half] {
        assert forall|i: int, j: int| 0 <= i < bits.len() && 0 <= j < bits.len() implies bits[i]
            == bits[j] by {
            if i < half {
                assert(left[i] == left[0]);
            } else {
                assert(right[i - half] == right[0]);
            }
            if j < half {
                assert(left[j] == left[0]);
            } else {
                assert(right[j - half] == right[0]);
            }
        }
    }
}

/// Appends the values of the block of `bits` from position `from` up to and
/// not including position `to`, and says whether all its bits are the same.
fn hiff_block(bits: &Bitstring, from: usize, to: usize, values: &mut Vec<i64>) -> (same: bool)
    requires
        from <= to <= bits.len(),
    ensures
        same == is_uniform_block(bits@.subrange(from as int, to as int)),
        final(values)@ == old(values)@ + hiff_values(bits@.subrange(from as int, to as int)),
    decreases to - from,
{
    let len = to - from;
    let ghost block = bits@.subrange(from as int, to as int);
    if len < 2 {
        values.push(len as i64);
        return true;
    }
    let half = len / 2;
    let middle = from + half;
    proof {
        assert(block.take(half as int) =~= bits@.subrange(from as int, middle as int));
        assert(block.skip(half as int) =~= bits@.subrange(middle as int, to as int));
        uniform_by_halves(block, half as int);
    }
    let left_same = hiff_block(bits, from, middle, values);
    let right_same = hiff_block(bits, middle, to, values);
    let same = left_same && right_same && bits[from] == bits[middle];
    let value: i64 = if !same {
        0
    } else if len as u64 > 0x7fff_ffff_ffff_ffff {
        0x7fff_ffff_ffff_ffff
    } else {
        len as i64
    };
    values.push(value);
    same
}

/// The values of the hierarchical if-and-only-if problem for `bits`.
pub fn hiff(bits: &Bitstring) -> (values: Vec<i64>)
    ensures
        values@ == hiff_values(bits@),
{
    let mut values: Vec<i64> = Vec::new();
    hiff_block(bits, 0, bits.len(), &mut values);
    proof {
        assert(bits@.subrange(0, bits.len() as int) =~= bits@);
    }
    values
}

/// The total that `CountOnes` gives a bitstring is the sum of the results
/// that it gives its bits (for every bitstring that a machine can hold: one
/// of at most `i64::MAX` bits).
pub proof fn count_ones_adds_up(genome: &Bitstring)
    requires
        genome.len() <= i64::MAX,
    ensures
        CountOnes.scored(genome).total_result.amount() == total(
            amounts(CountOnes.scored(genome).results),
        ),
{
    bit_scores_add_up(genome@);
    ones_bounded(genome@);
}

impl<R> Individual<Bitstring, R> {
    /// An individual with a random genome of `bit_length` bits and the
    /// results that `scorer` gives it.
    pub fn new_bitstring<Sc: Scorer<Bitstring, Result = R>>(
        bit_length: usize,
        scorer: &Sc,
        rng: &mut RandomSource,
    ) -> (individual: Self)
        ensures
            individual.genome.len() == bit_length,
            individual.test_results@ == scorer.scored(&individual.genome),
    {
        let genome = make_bitstring(bit_length, rng);
        let test_results = scorer.score(&genome);
        Individual { genome, test_results }
    }
}

} // verus!
