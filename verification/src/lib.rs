//! Estimation of a learner's review behavior from an ordered study-event log,
//! and selection of an optimal retention target for a spaced-repetition
//! scheduler.
//!
//! The estimator scans the log in four independent passes and produces a
//! `ParameterBundle` of rating-probability distributions and time-cost
//! averages, every one an exact integer `Ratio`.  The optimizer validates a
//! `SimulationRequest`, hands a `SimulationConfig` to an implementation of
//! `SimulationEngine`, and clamps the returned retention estimate into a safe
//! band.  The engine itself — an external search over a cost model — and the
//! log store stay outside this crate; a host wires them up and passes plain
//! values in.

mod error;
mod estimator;
mod event;
mod optimizer;
mod ratio;

pub use error::Error;
pub use error::Statistic;
pub use estimator::ParameterBundle;
pub use estimator::bounded_len;
pub use estimator::default_recall_cost;
pub use estimator::first_rating_count;
pub use estimator::first_rating_probability_spec;
pub use estimator::first_rating_stats;
pub use estimator::forget_cost_spec;
pub use estimator::get_optimal_retention_parameters;
pub use estimator::graduation_count;
pub use estimator::graduation_duration_ms;
pub use estimator::has_recall_rating;
pub use estimator::is_first_graduation;
pub use estimator::is_graduation;
pub use estimator::is_review_rated;
pub use estimator::learn_cost_spec;
pub use estimator::lemma_first_rating_counts_partition;
pub use estimator::lemma_graduation_count_zero;
pub use estimator::lemma_recall_counts_zero;
pub use estimator::lemma_review_nonagain_count_zero;
pub use estimator::lemma_review_rated_count_zero;
pub use estimator::lemma_review_rating_counts_partition;
pub use estimator::missing_statistic;
pub use estimator::phase_duration_ms;
pub use estimator::phase_run_stats;
pub use estimator::recall_cost_spec;
pub use estimator::recall_count;
pub use estimator::recall_duration_ms;
pub use estimator::recall_stats;
pub use estimator::relearning_run_average_spec;
pub use estimator::review_nonagain_count;
pub use estimator::review_rated_count;
pub use estimator::review_rating_probability_spec;
pub use estimator::review_rating_stats;
pub use estimator::run_count;
pub use estimator::starts_run;
pub use event::Phase;
pub use event::ReviewEvent;
pub use event::all_wf;
pub use event::grouped_by_card;
pub use optimizer::ComputeRetentionProgress;
pub use optimizer::RETENTION_CEILING_PPM;
pub use optimizer::RETENTION_FLOOR_PPM;
pub use optimizer::SimulationConfig;
pub use optimizer::SimulationEngine;
pub use optimizer::SimulationRequest;
pub use optimizer::build_simulator_config;
pub use optimizer::clamp_ppm;
pub use optimizer::clamp_retention;
pub use optimizer::compute_optimal_retention;
pub use ratio::Ratio;
