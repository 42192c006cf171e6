//! Operators: the stages of a pipeline that makes one offspring, and the
//! combinators that chain them.

use crate::error::EvolutionError;
use crate::random::RandomSource;
use vstd::prelude::*;

pub mod stages;

verus! {

/// A stage that turns an input into an output, drawing on a random source,
/// or fails.
pub trait Operator<Input> {
    type Output;

    /// Whether applying this operator to `input` may end in `outcome`,
    /// whatever its random draws turn out to be.
    spec fn yields(&self, input: Input, outcome: Result<Self::Output, EvolutionError>) -> bool;

    /// Applies the operator to `input`.
    fn apply(&self, input: Input, rng: &mut RandomSource) -> (out: Result<Self::Output, EvolutionError>)
        ensures
            self.yields(input, out),
    ;
}

/// Whether `first` may turn `input` into some value that `second` may turn
/// into `outcome`.
pub open spec fn passes_on<Input, A: Operator<Input>, B: Operator<A::Output>>(
    first: A,
    second: B,
    input: Input,
    outcome: Result<B::Output, EvolutionError>,
) -> bool {
    exists|between: A::Output| #[trigger]
        first.yields(input, Ok(between)) && second.yields(between, outcome)
}

/// Two stages in a row: the output of the first is the input of the second.
/// A failure of either is the failure of both, and after a failure of the
/// first the second is not applied.
#[derive(Debug, Clone)]
pub struct Then<A, B> {
    pub first: A,
    pub second: B,
}

impl<Input, A: Operator<Input>, B: Operator<A::Output>> Operator<Input> for Then<A, B> {
    type Output = B::Output;

    open spec fn yields(&self, input: Input, outcome: Result<B::Output, EvolutionError>) -> bool {
        ||| outcome matches Err(e) && self.first.yields(input, Err(e))
        ||| passes_on(self.first, self.second, input, outcome)
    }

    fn apply(&self, input: Input, rng: &mut RandomSource) -> (out: Result<B::Output, EvolutionError>) {
        match self.first.apply(input, rng) {
            Err(e) => Err(e),
            Ok(between) => {
                let out = self.second.apply(between, rng);
                out
            },
        }
    }
}

/// One stage applied twice to the same input, each time with draws of its
/// own; the two outputs come back as a pair.
#[derive(Debug, Clone)]
pub struct ApplyTwice<A> {
    pub inner: A,
}

impl<Input: Copy, A: Operator<Input>> Operator<Input> for ApplyTwice<A> {
    type Output = (A::Output, A::Output);

    open spec fn yields(
        &self,
        input: Input,
        outcome: Result<(A::Output, A::Output), EvolutionError>,
    ) -> bool {
        match outcome {
            Ok(pair) => self.inner.yields(input, Ok(pair.0)) && self.inner.yields(input, Ok(pair.1)),
            Err(e) => self.inner.yields(input, Err(e)),
        }
    }

    fn apply(&self, input: Input, rng: &mut RandomSource) -> (out: Result<
        (A::Output, A::Output),
        EvolutionError,
    >) {
        match self.inner.apply(input, rng) {
            Err(e) => Err(e),
            Ok(one) => match self.inner.apply(input, rng) {
                Err(e) => Err(e),
                Ok(other) => Ok((one, other)),
            },
        }
    }
}

/// Whether `first` may turn `input` into a pair whose halves `each` may turn
/// into the halves of `pair`.
pub open spec fn maps_onto<Input, X, A: Operator<Input, Output = (X, X)>, F: Operator<X>>(
    first: A,
    each: F,
    input: Input,
    pair: (F::Output, F::Output),
) -> bool {
    exists|between: (X, X)| #[trigger]
        first.yields(input, Ok(between)) && each.yields(between.0, Ok(pair.0)) && each.yields(
            between.1,
            Ok(pair.1),
        )
}

/// Whether `first` may turn `input` into a pair on one of whose halves
/// `each` may fail with `e`.
pub open spec fn fails_on_half<Input, X, A: Operator<Input, Output = (X, X)>, F: Operator<X>>(
    first: A,
    each: F,
    input: Input,
    e: EvolutionError,
) -> bool {
    exists|between: (X, X)| #[trigger]
        first.yields(input, Ok(between)) && (each.yields(between.0, Err(e)) || each.yields(
            between.1,
            Err(e),
        ))
}

/// A stage that makes a pair, followed by a stage that is applied to each
/// half of the pair on its own.
#[derive(Debug, Clone)]
pub struct ThenMap<A, F> {
    pub first: A,
    pub each: F,
}

impl<Input, X, A: Operator<Input, Output = (X, X)>, F: Operator<X>> Operator<Input> for ThenMap<A, F> {
    type Output = (F::Output, F::Output);

    open spec fn yields(
        &self,
        input: Input,
        outcome: Result<(F::Output, F::Output), EvolutionError>,
    ) -> bool {
        match outcome {
            Ok(pair) => maps_onto(self.first, self.each, input, pair),
            Err(e) => self.first.yields(input, Err(e)) || fails_on_half(self.first, self.each, input, e),
        }
    }

    fn apply(&self, input: Input, rng: &mut RandomSource) -> (out: Result<
        (F::Output, F::Output),
        EvolutionError,
    >) {
        match self.first.apply(input, rng) {
            Err(e) => Err(e),
            Ok(between) => {
                let (left, right) = between;
                match self.each.apply(left, rng) {
                    Err(e) => Err(e),
                    Ok(one) => match self.each.apply(right, rng) {
                        Err(e) => Err(e),
                        Ok(other) => Ok((one, other)),
                    },
                }
            },
        }
    }
}

/// A last step that turns what a pipeline has made into the result that is
/// handed out. It draws nothing and does not fail.
pub trait Finisher<T> {
    type Output;

    /// Whether `out` is what this step makes of `value`.
    spec fn finishes(&self, value: T, out: Self::Output) -> bool;

    /// What this step makes of `value`.
    fn finish(&self, value: T) -> (out: Self::Output)
        ensures
            self.finishes(value, out),
    ;
}

/// Whether `inner` may turn `input` into some value of which `last` makes
/// `out`.
pub open spec fn finishes_from<Input, A: Operator<Input>, F: Finisher<A::Output>>(
    inner: A,
    last: F,
    input: Input,
    out: F::Output,
) -> bool {
    exists|made: A::Output| #[trigger] inner.yields(input, Ok(made)) && last.finishes(made, out)
}

/// A pipeline followed by the last step that makes its result.
#[derive(Debug, Clone)]
pub struct Wrap<A, F> {
    pub inner: A,
    pub last: F,
}

impl<Input, A: Operator<Input>, F: Finisher<A::Output>> Operator<Input> for Wrap<A, F> {
    type Output = F::Output;

    open spec fn yields(&self, input: Input, outcome: Result<F::Output, EvolutionError>) -> bool {
        match outcome {
            Ok(out) => finishes_from(self.inner, self.last, input, out),
            Err(e) => self.inner.yields(input, Err(e)),
        }
    }

    fn apply(&self, input: Input, rng: &mut RandomSource) -> (out: Result<F::Output, EvolutionError>) {
        match self.inner.apply(input, rng) {
            Err(e) => Err(e),
            Ok(made) => {
                let out = self.last.finish(made);
                Ok(out)
            },
        }
    }
}

/// The calls that chain stages into a pipeline. Every type has them.
pub trait Composable: Sized {
    /// This stage followed by `next`.
    fn then<B>(self, next: B) -> (chained: Then<Self, B>)
        ensures
            chained.first == self,
            chained.second == next,
    {
        Then { first: self, second: next }
    }

    /// This stage, which makes a pair, followed by `each` on each half.
    fn then_map<F>(self, each: F) -> (chained: ThenMap<Self, F>)
        ensures
            chained.first == self,
            chained.each == each,
    {
        ThenMap { first: self, each }
    }

    /// This stage applied twice.
    fn apply_twice(self) -> (twice: ApplyTwice<Self>)
        ensures
            twice.inner == self,
    {
        ApplyTwice { inner: self }
    }

    /// This pipeline followed by the last step `last`.
    fn wrap<F>(self, last: F) -> (wrapped: Wrap<Self, F>)
        ensures
            wrapped.inner == self,
            wrapped.last == last,
    {
        Wrap { inner: self, last }
    }
}

impl<T> Composable for T {
}

} // verus!
