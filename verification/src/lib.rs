//! A generational evolutionary-computation engine.
//!
//! * [`test_results`]: the results of evaluating a genome, and the two
//!   policies that say which of two results is the better.
//! * [`individual`]: a genome together with its results.
//! * [`selector`]: the strategies that choose a parent from a population.
//! * [`operator`]: the stages of an offspring pipeline and the combinators
//!   that chain them.
//! * [`child_maker`]: whatever makes one offspring of a population.
//! * [`generation`]: a population that is stepped as a whole.
//! * [`generator`]: makers of random values, such as a first population.
//! * [`bitstring`]: genomes of bits with their crossover, mutation and
//!   scoring.
//! * [`instruction`]: the boolean instructions of a small stack machine.
//! * [`random`]: the source of randomness, and [`error`]: what can go wrong.

pub mod bitstring;
pub mod child_maker;
pub mod error;
pub mod generation;
pub mod generator;
pub mod individual;
pub mod instruction;
pub mod operator;
pub mod random;
pub mod selector;
pub mod test_results;
