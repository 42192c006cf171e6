//! Generators: whatever makes a (possibly random) value of some type.

use crate::error::EvolutionError;
use crate::random::RandomSource;
use vstd::prelude::*;

verus! {

/// A maker of values of type `T`. The implementing type holds whatever is
/// needed to make one.
pub trait Generator<T> {
    /// Whether generating may end in `outcome`.
    spec fn may_generate(&self, outcome: Result<T, EvolutionError>) -> bool;

    /// A new value, or the failure of the generator.
    fn generate(&self, rng: &mut RandomSource) -> (out: Result<T, EvolutionError>)
        ensures
            self.may_generate(out),
    ;
}

/// Whether `value` is a copy of one of `options`.
pub open spec fn is_copy_of_one<T: Clone>(options: Seq<T>, value: T) -> bool {
    exists|i: int| 0 <= i < options.len() && cloned(#[trigger] options[i], value)
}

/// What choosing among `options` may end in: a copy of one of them, or
/// `EmptyCollection` where there is none.
pub open spec fn may_pick<T: Clone>(options: Seq<T>, outcome: Result<T, EvolutionError>) -> bool {
    match outcome {
        Ok(value) => is_copy_of_one(options, value),
        Err(e) => options.len() == 0 && e == EvolutionError::EmptyCollection,
    }
}

/// A copy of one of `options`, chosen at random.
pub fn pick_copy<T: Clone>(options: &[T], rng: &mut RandomSource) -> (out: Result<T, EvolutionError>)
    ensures
        may_pick(options@, out),
{
    match rng.pick(options) {
        None => Err(EvolutionError::EmptyCollection),
        Some(option) => {
            let value = option.clone();
            proof {
                let i = choose|i: int| 0 <= i < options@.len() && options@[i] == *option;
                assert(cloned(options@[i], value));
            }
            Ok(value)
        },
    }
}

/// A reference to a generator generates what the generator does.
impl<'a, T, U: Generator<T>> Generator<T> for &'a U {
    open spec fn may_generate(&self, outcome: Result<T, EvolutionError>) -> bool {
        (**self).may_generate(outcome)
    }

    fn generate(&self, rng: &mut RandomSource) -> (out: Result<T, EvolutionError>) {
        (**self).generate(rng)
    }
}

/// An array of options generates a copy of one of them.
impl<const N: usize, T: Clone> Generator<T> for [T; N] {
    open spec fn may_generate(&self, outcome: Result<T, EvolutionError>) -> bool {
        may_pick(self@, outcome)
    }

    fn generate(&self, rng: &mut RandomSource) -> (out: Result<T, EvolutionError>) {
        pick_copy(self.as_slice(), rng)
    }
}

/// A vector of options generates a copy of one of them.
impl<T: Clone> Generator<T> for Vec<T> {
    open spec fn may_generate(&self, outcome: Result<T, EvolutionError>) -> bool {
        may_pick(self@, outcome)
    }

    fn generate(&self, rng: &mut RandomSource) -> (out: Result<T, EvolutionError>) {
        pick_copy(self.as_slice(), rng)
    }
}

/// Whether each of `values` is something that `element_generator` may
/// generate.
pub open spec fn all_generated_by<T, G: Generator<T>>(element_generator: &G, values: Seq<T>) -> bool {
    forall|i: int| 0 <= i < values.len() ==> element_generator.may_generate(Ok(#[trigger] values[i]))
}

/// A generator of collections: `size` values, each made by
/// `element_generator`.
#[derive(Debug, Clone)]
pub struct CollectionGenerator<G> {
    pub size: usize,
    pub element_generator: G,
}

impl<T, G: Generator<T>> Generator<Vec<T>> for CollectionGenerator<G> {
    open spec fn may_generate(&self, outcome: Result<Vec<T>, EvolutionError>) -> bool {
        match outcome {
            Ok(values) => values.len() == self.size && all_generated_by(&self.element_generator, values@),
            Err(e) => self.size > 0 && self.element_generator.may_generate(Err(e)),
        }
    }

    fn generate(&self, rng: &mut RandomSource) -> (out: Result<Vec<T>, EvolutionError>) {
        let mut values: Vec<T> = Vec::new();
        let mut made: usize = 0;
        while made < self.size
            invariant
                made <= self.size,
                values.len() == made,
                all_generated_by(&self.element_generator, values@),
            decreases self.size - made,
        {
            match self.element_generator.generate(rng) {
                Err(e) => {
                    return Err(e);
                },
                Ok(value) => {
                    values.push(value);
                },
            }
            made = made + 1;
        }
        Ok(values)
    }
}

} // verus!
