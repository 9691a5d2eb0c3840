use vstd::prelude::*;

use crate::error::Error;
use crate::estimator::ParameterBundle;
use crate::estimator::bounded_len;
use crate::estimator::get_optimal_retention_parameters;
use crate::estimator::missing_statistic;
use crate::event::ReviewEvent;
use crate::event::all_wf;
use crate::event::grouped_by_card;
use crate::ratio::Ratio;

verus! {

/// Lowest retention target the optimizer will return, in millionths.
pub const RETENTION_FLOOR_PPM: u32 = 750_000;

/// Highest retention target the optimizer will return, in millionths.
pub const RETENTION_CEILING_PPM: u32 = 950_000;

/// A caller's request for a retention target.
///
/// The filter string that selects the event subset, the model weight vector
/// and the loss-aversion weight ride along at the host level: they pass to
/// the log store and the engine untouched and never enter the statistics.
#[derive(Clone, Copy, Debug, PartialEq, Eq, Structural)]
pub struct SimulationRequest {
    /// Number of cards the simulated learner studies.
    pub deck_size: u32,
    /// Simulated horizon, in days; zero is rejected before any work.
    pub days_to_simulate: u32,
    /// Daily study budget, in minutes.
    pub max_minutes_of_study_per_day: u32,
    /// Largest interval the simulated scheduler may assign, in days.
    pub max_interval: u32,
}

/// Everything the cost-simulation engine needs from this library: the
/// caller's request translated to the engine's units, and the estimated
/// parameter bundle laid out as the engine consumes it.
#[derive(Clone, Copy, Debug)]
pub struct SimulationConfig {
    /// Number of cards to simulate.
    pub deck_size: u32,
    /// Simulated horizon, in days.
    pub learn_span: u32,
    /// Daily study budget, converted from minutes to seconds.
    pub max_cost_per_day_secs: u64,
    /// Largest interval the simulated scheduler may assign, in days.
    pub max_interval: u32,
    /// Recall cost of Hard, Good and Easy reviews, in seconds.  The Again
    /// cost is not passed separately: it is folded into `forget_cost`.
    pub recall_costs: [Ratio; 3],
    /// Average seconds lost to a lapse.
    pub forget_cost: Ratio,
    /// Average seconds of a first graduation.
    pub learn_cost: Ratio,
    /// Probability of each rating 1 through 4 on first graduation.
    pub first_rating_prob: [Ratio; 4],
    /// Probability of Hard, Good and Easy among review-rated events.
    pub review_rating_prob: [Ratio; 3],
}

/// Translate a request and a parameter bundle into the engine's
/// configuration: sizes copied, the budget turned into seconds, the Again
/// recall cost dropped in favor of the forget cost, probabilities copied.
pub fn build_simulator_config(req: &SimulationRequest, p: &ParameterBundle) -> (c:
    SimulationConfig)
    ensures
        c.deck_size == req.deck_size,
        c.learn_span == req.days_to_simulate,
        c.max_cost_per_day_secs == req.max_minutes_of_study_per_day as u64 * 60,
        c.max_interval == req.max_interval,
        c.recall_costs[0] == p.recall_cost[1],
        c.recall_costs[1] == p.recall_cost[2],
        c.recall_costs[2] == p.recall_cost[3],
        c.forget_cost == p.forget_cost,
        c.learn_cost == p.learn_cost,
        c.first_rating_prob == p.first_rating_probability,
        c.review_rating_prob == p.review_rating_probability,
{
    SimulationConfig {
        deck_size: req.deck_size,
        learn_span: req.days_to_simulate,
        max_cost_per_day_secs: (req.max_minutes_of_study_per_day as u64) * 60,
        max_interval: req.max_interval,
        recall_costs: [p.recall_cost[1], p.recall_cost[2], p.recall_cost[3]],
        forget_cost: p.forget_cost,
        learn_cost: p.learn_cost,
        first_rating_prob: p.first_rating_probability,
        review_rating_prob: p.review_rating_probability,
    }
}

/// The external cost-simulation engine, seen from this library.
///
/// An implementation owns the search algorithm, the model weight vector and
/// whatever progress or cancellation channel the host wires up; it receives
/// the configuration and answers with a raw retention estimate in
/// millionths, or with `EngineFailure` or `EngineAborted`.  The library
/// claims nothing about the answer: whatever comes back is clamped before it
/// reaches the caller.
pub trait SimulationEngine {
    /// Search for the retention value that minimizes expected study time
    /// under this configuration.
    fn optimize(&mut self, config: &SimulationConfig) -> Result<u32, Error>;
}

/// Progress of a retention search, for a caller-controlled polling channel.
#[derive(Default, Clone, Copy, Debug, PartialEq, Eq, Structural)]
pub struct ComputeRetentionProgress {
    /// Steps the engine has completed so far.
    pub current: u32,
    /// Steps the engine expects in total, where it knows; otherwise zero.
    pub total: u32,
}

impl ComputeRetentionProgress {
    /// Record the engine's latest report and say whether the search should
    /// go on: `false` is the cooperative cancellation signal.  The engine's
    /// callback calls this with the host's cancellation flag in hand.
    pub fn update(&mut self, current: u32, total: u32, cancel_requested: bool) -> (keep_going:
        bool)
        ensures
            final(self).current == current,
            final(self).total == total,
            keep_going == !cancel_requested,
    {
        self.current = current;
        self.total = total;
        !cancel_requested
    }
}

/// The safety rail of the optimizer: raw engine output forced into the
/// closed band from `RETENTION_FLOOR_PPM` to `RETENTION_CEILING_PPM`.
pub open spec fn clamp_ppm(raw: u32) -> u32 {
    if raw < RETENTION_FLOOR_PPM {
        RETENTION_FLOOR_PPM
    } else if raw > RETENTION_CEILING_PPM {
        RETENTION_CEILING_PPM
    } else {
        raw
    }
}

/// Clamp a raw retention estimate, in millionths, into the safe band.
pub fn clamp_retention(raw: u32) -> (r: u32)
    ensures
        r == clamp_ppm(raw),
        RETENTION_FLOOR_PPM <= r <= RETENTION_CEILING_PPM,
{
    if raw < RETENTION_FLOOR_PPM {
        RETENTION_FLOOR_PPM
    } else if raw > RETENTION_CEILING_PPM {
        RETENTION_CEILING_PPM
    } else {
        raw
    }
}

/// Choose a retention target, in millionths, for the given request and
/// event log.
///
/// A zero horizon is rejected before anything else runs; a failure of the
/// estimator propagates unchanged; and only when both steps pass is the
/// engine consulted, its raw answer clamped into the safe band.
pub fn compute_optimal_retention<E: SimulationEngine>(
    engine: &mut E,
    req: &SimulationRequest,
    revlogs: &Vec<ReviewEvent>,
) -> (res: Result<u32, Error>)
    requires
        all_wf(revlogs@),
        grouped_by_card(revlogs@),
        bounded_len(revlogs@),
    ensures
        req.days_to_simulate == 0 ==> res == Result::<u32, Error>::Err(Error::InvalidInput)
            && *final(engine) == *old(engine),
        req.days_to_simulate > 0 ==> (missing_statistic(revlogs@) matches Some(st) ==> res
            == Result::<u32, Error>::Err(Error::InsufficientData(st)) && *final(engine) == *old(engine)),
        res matches Ok(v) ==> req.days_to_simulate > 0 && missing_statistic(revlogs@) is None
            && RETENTION_FLOOR_PPM <= v <= RETENTION_CEILING_PPM,
{
    if req.days_to_simulate == 0 {
        return Err(Error::InvalidInput);
    }
    let p = match get_optimal_retention_parameters(revlogs) {
        Ok(p) => p,
        Err(e) => {
            return Err(e);
        },
    };
    let config = build_simulator_config(req, &p);
    match engine.optimize(&config) {
        Ok(raw) => Ok(clamp_retention(raw)),
        Err(e) => Err(e),
    }
}

} // verus!
