use retention::Error;
use retention::Phase;
use retention::Ratio;
use retention::ReviewEvent;
use retention::Statistic;
use retention::first_rating_stats;
use retention::get_optimal_retention_parameters;
use retention::phase_run_stats;
use retention::recall_stats;
use retention::review_rating_stats;

fn ev(card_id: i64, event_id: i64, phase: Phase, rating: u8, duration_ms: u32) -> ReviewEvent {
    ReviewEvent { card_id, event_id, phase, rating, duration_ms }
}

fn as_f64(r: &Ratio) -> f64 {
    r.num as f64 / r.den as f64
}

/// A log that supports every statistic: one card that graduates, is
/// reviewed with several ratings, and relearns once.
fn rich_log() -> Vec<ReviewEvent> {
    vec![
        ev(1, 1, Phase::Learning, 3, 3000),
        ev(1, 2, Phase::Review, 1, 10000),
        ev(1, 3, Phase::Review, 3, 2000),
        ev(1, 4, Phase::Relearning, 3, 2500),
        ev(1, 5, Phase::Relearning, 3, 3500),
        ev(2, 6, Phase::Learning, 2, 5000),
        ev(2, 7, Phase::Review, 4, 1500),
    ]
}

#[test]
fn first_rating_probability_ten_cards() {
    // Ten cards, each with one Learning-phase graduation: two rated Hard,
    // eight rated Good.
    let mut events = Vec::new();
    for card in 0..10i64 {
        let rating = if card < 2 { 2 } else { 3 };
        events.push(ev(card, card, Phase::Learning, rating, 4000));
    }
    let (again, hard, good, easy, _dur) = first_rating_stats(&events);
    assert_eq!((again, hard, good, easy), (0, 2, 8, 0));

    // Through the full bundle, with enough review history appended per card
    // for the other statistics.
    for card in 0..10i64 {
        events.push(ev(card + 100, 1000 + card, Phase::Review, 3, 2000));
    }
    let bundle = get_optimal_retention_parameters(&events).unwrap();
    let probs: Vec<f64> = bundle.first_rating_probability.iter().map(as_f64).collect();
    assert_eq!(probs, vec![0.0, 0.2, 0.8, 0.0]);
}

#[test]
fn first_rating_probabilities_sum_to_one() {
    let mut events = vec![
        ev(1, 1, Phase::Learning, 1, 7000),
        ev(2, 2, Phase::Learning, 2, 6000),
        ev(3, 3, Phase::Learning, 3, 5000),
        ev(4, 4, Phase::Learning, 3, 4000),
        ev(5, 5, Phase::Learning, 4, 3000),
        ev(6, 6, Phase::Learning, 3, 2000),
        ev(7, 7, Phase::Learning, 4, 8000),
    ];
    events.push(ev(8, 8, Phase::Review, 3, 2000));
    let bundle = get_optimal_retention_parameters(&events).unwrap();
    let p = &bundle.first_rating_probability;
    // Exact as rationals: the numerators sum to the shared denominator.
    assert_eq!(p[0].num + p[1].num + p[2].num + p[3].num, p[0].den);
    assert!(p.iter().all(|r| r.den == p[0].den));
    let total: f64 = p.iter().map(as_f64).sum();
    assert!((total - 1.0).abs() < 1e-12);
}

#[test]
fn review_rating_probabilities_sum_to_one() {
    let events = vec![
        ev(1, 1, Phase::Learning, 3, 3000),
        ev(1, 2, Phase::Review, 2, 4000),
        ev(1, 3, Phase::Review, 3, 2500),
        ev(1, 4, Phase::Review, 3, 2000),
        ev(1, 5, Phase::Review, 4, 1500),
        ev(1, 6, Phase::Review, 1, 9000),
    ];
    let bundle = get_optimal_retention_parameters(&events).unwrap();
    let p = &bundle.review_rating_probability;
    // Again-rated reviews stay out of both numerators and denominator.
    assert_eq!(p[0].den, 4);
    assert_eq!(p[0].num + p[1].num + p[2].num, p[0].den);
    assert_eq!(as_f64(&p[0]), 0.25);
    assert_eq!(as_f64(&p[1]), 0.5);
    assert_eq!(as_f64(&p[2]), 0.25);
}

#[test]
fn review_rating_probabilities_with_one_bucket_zero() {
    // Only Good ratings: the Hard and Easy buckets are zero, and the
    // probabilities still sum to one.
    let events = vec![
        ev(1, 1, Phase::Learning, 3, 3000),
        ev(1, 2, Phase::Review, 3, 2000),
        ev(1, 3, Phase::Review, 3, 2200),
    ];
    let bundle = get_optimal_retention_parameters(&events).unwrap();
    let p = &bundle.review_rating_probability;
    assert_eq!(p[0].num + p[1].num + p[2].num, p[0].den);
    assert_eq!(as_f64(&p[0]), 0.0);
    assert_eq!(as_f64(&p[1]), 1.0);
    assert_eq!(as_f64(&p[2]), 0.0);
}

#[test]
fn rating_zero_reviews_widen_the_denominator() {
    // A rating-0 Review event is counted in the denominator but appears in
    // no numerator, so the probabilities no longer sum to one.
    let events = vec![
        ev(1, 1, Phase::Learning, 3, 3000),
        ev(1, 2, Phase::Review, 0, 1000),
        ev(1, 3, Phase::Review, 3, 2000),
    ];
    let bundle = get_optimal_retention_parameters(&events).unwrap();
    let p = &bundle.review_rating_probability;
    assert_eq!(p[0].den, 2);
    assert_eq!(p[0].num + p[1].num + p[2].num, 1);
    assert_eq!(as_f64(&p[1]), 0.5);
}

#[test]
fn no_graduation_fails_with_insufficient_data() {
    // Plenty of events, but none is a rated Learning-phase one.
    let events = vec![
        ev(1, 1, Phase::Learning, 0, 3000),
        ev(1, 2, Phase::Review, 3, 2000),
        ev(2, 3, Phase::Relearning, 3, 4000),
        ev(2, 4, Phase::Manual, 3, 0),
        ev(2, 5, Phase::FilteredLearning, 3, 1000),
    ];
    let res = get_optimal_retention_parameters(&events);
    assert_eq!(res.unwrap_err(), Error::InsufficientData(Statistic::FirstRating));
}

#[test]
fn empty_log_fails_with_insufficient_data() {
    let events = Vec::new();
    let res = get_optimal_retention_parameters(&events);
    assert_eq!(res.unwrap_err(), Error::InsufficientData(Statistic::FirstRating));
}

#[test]
fn no_review_events_leaves_recall_costs_default_and_fails() {
    let events = vec![
        ev(1, 1, Phase::Learning, 3, 3000),
        ev(1, 2, Phase::Relearning, 3, 4000),
    ];
    // Every recall-cost slot keeps its default of 14, 14, 10 and 6 seconds,
    // and the written flag stays down.
    let (costs, written) = recall_stats(&events);
    assert!(!written);
    let secs: Vec<f64> = costs.iter().map(as_f64).collect();
    assert_eq!(secs, vec![14.0, 14.0, 10.0, 6.0]);
    // Estimation fails: without Review-phase events there are no review
    // ratings either, which is the first statistic to miss them.
    let res = get_optimal_retention_parameters(&events);
    assert_eq!(res.unwrap_err(), Error::InsufficientData(Statistic::ReviewRating));
}

#[test]
fn unrated_reviews_only_fail_on_recall_cost() {
    // Rating-0 Review events satisfy the review-rating pass but leave every
    // recall-cost slot unwritten.
    let events = vec![
        ev(1, 1, Phase::Learning, 3, 3000),
        ev(1, 2, Phase::Review, 0, 2000),
        ev(1, 3, Phase::Review, 0, 2500),
    ];
    let res = get_optimal_retention_parameters(&events);
    assert_eq!(res.unwrap_err(), Error::InsufficientData(Statistic::RecallCost));
}

#[test]
fn forget_cost_single_relearning_run() {
    // One Relearning run of 6000 ms in total, and an Again recall cost of
    // exactly 10 seconds: the forget cost is 6.0 + 10.0 = 16.0 seconds.
    let events = rich_log();
    let bundle = get_optimal_retention_parameters(&events).unwrap();
    assert_eq!(as_f64(&bundle.recall_cost[0]), 10.0);
    assert_eq!(as_f64(&bundle.forget_cost), 16.0);
}

#[test]
fn forget_cost_averages_over_runs() {
    // Two Relearning runs, split by a Review event: 2000 ms and 4000 ms
    // average to 3 seconds per run; no Again-rated review exists, so the
    // default Again cost of 14 seconds is added.
    let events = vec![
        ev(1, 1, Phase::Learning, 3, 3000),
        ev(1, 2, Phase::Relearning, 3, 2000),
        ev(1, 3, Phase::Review, 3, 1500),
        ev(1, 4, Phase::Relearning, 3, 4000),
    ];
    let bundle = get_optimal_retention_parameters(&events).unwrap();
    assert_eq!(as_f64(&bundle.recall_cost[0]), 14.0);
    assert_eq!(as_f64(&bundle.forget_cost), 17.0);
}

#[test]
fn relearning_runs_join_across_cards() {
    // A run breaks only when the phase changes, even across card
    // boundaries: adjacent Relearning events of different cards form one run.
    let events = vec![
        ev(1, 1, Phase::Relearning, 3, 2000),
        ev(2, 2, Phase::Relearning, 3, 4000),
    ];
    let (duration, runs) = phase_run_stats(&events, Phase::Relearning);
    assert_eq!(duration, 6000);
    assert_eq!(runs, 1);
}

#[test]
fn only_the_first_graduation_of_a_card_counts() {
    let events = vec![
        ev(1, 1, Phase::Learning, 0, 1000),
        ev(1, 2, Phase::Learning, 1, 2000),
        ev(1, 3, Phase::Learning, 3, 3000),
        ev(2, 4, Phase::Learning, 4, 4000),
        ev(2, 5, Phase::Learning, 4, 5000),
    ];
    let (again, hard, good, easy, duration) = first_rating_stats(&events);
    assert_eq!((again, hard, good, easy), (1, 0, 0, 1));
    // Only the durations of the two first graduations are summed.
    assert_eq!(duration, 6000);
}

#[test]
fn learn_cost_averages_first_graduations() {
    let events = vec![
        ev(1, 1, Phase::Learning, 3, 3000),
        ev(2, 2, Phase::Learning, 2, 5000),
        ev(3, 3, Phase::Review, 3, 2000),
    ];
    let bundle = get_optimal_retention_parameters(&events).unwrap();
    assert_eq!(as_f64(&bundle.learn_cost), 4.0);
}

#[test]
fn recall_costs_average_by_rating_and_keep_defaults() {
    let events = vec![
        ev(1, 1, Phase::Learning, 3, 3000),
        ev(1, 2, Phase::Review, 3, 2000),
        ev(1, 3, Phase::Review, 3, 4000),
        ev(1, 4, Phase::Review, 4, 1500),
    ];
    let bundle = get_optimal_retention_parameters(&events).unwrap();
    let secs: Vec<f64> = bundle.recall_cost.iter().map(as_f64).collect();
    // Ratings 1 and 2 keep their defaults; 3 averages to 3 seconds; 4 is 1.5.
    assert_eq!(secs, vec![14.0, 14.0, 3.0, 1.5]);
}

#[test]
fn review_rating_stats_counts_by_rating() {
    let events = rich_log();
    let (hard, good, easy, total) = review_rating_stats(&events);
    assert_eq!((hard, good, easy), (0, 1, 1));
    assert_eq!(total, 2);
}
