//! The ways in which selection, a pipeline stage or a generation step fails.

use vstd::prelude::*;

verus! {

/// A selector or a step was set up in a way that cannot work.
#[derive(Debug, Clone, Copy, PartialEq, Eq, Structural)]
pub enum ConfigurationError {
    /// An individual carries a number of per-case results other than the
    /// number of cases the lexicase selector was declared with.
    CaseCountMismatch,
    /// A weighted entry was given the weight zero.
    NonPositiveWeight,
    /// A weighted selector holds no entry.
    NoSelectors,
    /// The weights of a weighted selector add up to more than `usize::MAX`.
    TotalWeightTooLarge,
    /// A tournament was declared with no participant.
    EmptyTournament,
    /// The offspring handed over for a new generation are not as many as the
    /// individuals they replace.
    PopulationSizeMismatch,
}

/// The stage of an offspring pipeline that rejected its input.
#[derive(Debug, Clone, Copy, PartialEq, Eq, Structural)]
pub enum StageFailure {
    /// A recombinator could not combine the two genomes it was given.
    Recombination,
    /// A mutator could not perturb the genome it was given.
    Mutation,
    /// The per-case results of a genome do not add up within `i64`.
    Scoring,
}

/// Every failure that the engine reports.
#[derive(Debug, Clone, Copy, PartialEq, Eq, Structural)]
pub enum EvolutionError {
    /// Selection or a generation step was asked of an empty population.
    EmptyCollection,
    /// See [`ConfigurationError`].
    ConfigurationError(ConfigurationError),
    /// See [`StageFailure`].
    PipelineStageFailure(StageFailure),
}

} // verus!
