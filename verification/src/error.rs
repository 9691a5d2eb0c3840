use vstd::prelude::*;

verus! {

/// The statistic that the filtered event log was too thin to support.
#[derive(Clone, Copy, Debug, PartialEq, Eq, Structural)]
pub enum Statistic {
    /// No card has a Learning-phase event with a rating of 1 or higher.
    FirstRating,
    /// No Review-phase event carries a rating other than Again.
    ReviewRating,
    /// No Review-phase event carries a rating at all.
    RecallCost,
}

/// Everything that can go wrong while estimating parameters or searching
/// for a retention target.
#[derive(Clone, Copy, Debug, PartialEq, Eq, Structural)]
pub enum Error {
    /// The caller-supplied request is structurally invalid: a zero simulated
    /// horizon, or a filter the log store refused.
    InvalidInput,
    /// The filtered event log lacks the shape the named statistic needs.
    InsufficientData(Statistic),
    /// The simulation engine could not produce a result.
    EngineFailure,
    /// The simulation engine stopped early on a cancellation signal.
    EngineAborted,
}

} // verus!
