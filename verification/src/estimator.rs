use vstd::prelude::*;

use crate::error::Error;
use crate::error::Statistic;
use crate::event::Phase;
use crate::event::ReviewEvent;
use crate::event::all_wf;
use crate::event::grouped_by_card;
use crate::ratio::Ratio;

verus! {

/// The estimator only reads logs whose length fits the machine's arithmetic:
/// with at most 0x1_0000_0000 events every summed duration fits in a `u64`
/// and every derived ratio in a `u128`.
pub open spec fn bounded_len(s: Seq<ReviewEvent>) -> bool {
    s.len() <= 0x1_0000_0000
}

/// A graduation event: the learner rated a Learning-phase review.
pub open spec fn is_graduation(e: ReviewEvent) -> bool {
    e.phase == Phase::Learning && e.rating >= 1
}

/// A Review-phase event whose rating is not Again; rating 0 also passes,
/// which keeps such events in the review-probability denominator.
pub open spec fn is_review_rated(e: ReviewEvent) -> bool {
    e.phase == Phase::Review && e.rating != 1
}

/// A Review-phase event that carries a rating, so it bears a recall cost.
pub open spec fn has_recall_rating(e: ReviewEvent) -> bool {
    e.phase == Phase::Review && e.rating >= 1
}

/// Event `i` is its card's first graduation: no earlier event of the same
/// card graduates.
pub open spec fn is_first_graduation(s: Seq<ReviewEvent>, i: int) -> bool {
    &&& is_graduation(s[i])
    &&& forall|j: int|
        0 <= j < i && s[j].card_id == s[i].card_id ==> !is_graduation(#[trigger] s[j])
}

/// How many of the first `k` events are first graduations with this rating.
pub open spec fn first_rating_count(s: Seq<ReviewEvent>, k: int, rating: int) -> nat
    decreases k,
{
    if k <= 0 {
        0
    } else {
        first_rating_count(s, k - 1, rating) + (if is_first_graduation(s, k - 1) && s[k - 1].rating
            == rating {
            1nat
        } else {
            0nat
        })
    }
}

/// How many of the first `k` events are first graduations.
pub open spec fn graduation_count(s: Seq<ReviewEvent>, k: int) -> nat
    decreases k,
{
    if k <= 0 {
        0
    } else {
        graduation_count(s, k - 1) + (if is_first_graduation(s, k - 1) {
            1nat
        } else {
            0nat
        })
    }
}

/// Milliseconds spent on the first graduations among the first `k` events.
pub open spec fn graduation_duration_ms(s: Seq<ReviewEvent>, k: int) -> nat
    decreases k,
{
    if k <= 0 {
        0
    } else {
        graduation_duration_ms(s, k - 1) + (if is_first_graduation(s, k - 1) {
            s[k - 1].duration_ms as nat
        } else {
            0nat
        })
    }
}

/// How many of the first `k` events are review-rated with this rating.
pub open spec fn review_rated_count(s: Seq<ReviewEvent>, k: int, rating: int) -> nat
    decreases k,
{
    if k <= 0 {
        0
    } else {
        review_rated_count(s, k - 1, rating) + (if is_review_rated(s[k - 1]) && s[k - 1].rating
            == rating {
            1nat
        } else {
            0nat
        })
    }
}

/// How many of the first `k` events are review-rated at all.
pub open spec fn review_nonagain_count(s: Seq<ReviewEvent>, k: int) -> nat
    decreases k,
{
    if k <= 0 {
        0
    } else {
        review_nonagain_count(s, k - 1) + (if is_review_rated(s[k - 1]) {
            1nat
        } else {
            0nat
        })
    }
}

/// How many of the first `k` events are Review-phase events with this rating.
pub open spec fn recall_count(s: Seq<ReviewEvent>, k: int, rating: int) -> nat
    decreases k,
{
    if k <= 0 {
        0
    } else {
        recall_count(s, k - 1, rating) + (if s[k - 1].phase == Phase::Review && s[k - 1].rating
            == rating {
            1nat
        } else {
            0nat
        })
    }
}

/// Milliseconds spent on Review-phase events with this rating, among the
/// first `k` events.
pub open spec fn recall_duration_ms(s: Seq<ReviewEvent>, k: int, rating: int) -> nat
    decreases k,
{
    if k <= 0 {
        0
    } else {
        recall_duration_ms(s, k - 1, rating) + (if s[k - 1].phase == Phase::Review && s[k
            - 1].rating == rating {
            s[k - 1].duration_ms as nat
        } else {
            0nat
        })
    }
}

/// Event `i` opens a maximal stretch of adjacent events sharing one phase.
pub open spec fn starts_run(s: Seq<ReviewEvent>, i: int) -> bool {
    i == 0 || s[i - 1].phase != s[i].phase
}

/// How many runs of this phase start among the first `k` events.
pub open spec fn run_count(s: Seq<ReviewEvent>, k: int, phase: Phase) -> nat
    decreases k,
{
    if k <= 0 {
        0
    } else {
        run_count(s, k - 1, phase) + (if starts_run(s, k - 1) && s[k - 1].phase == phase {
            1nat
        } else {
            0nat
        })
    }
}

/// Milliseconds spent in this phase among the first `k` events.  Every event
/// lies in exactly one run of its phase, so this is also the total over all
/// runs of the per-run duration sums.
pub open spec fn phase_duration_ms(s: Seq<ReviewEvent>, k: int, phase: Phase) -> nat
    decreases k,
{
    if k <= 0 {
        0
    } else {
        phase_duration_ms(s, k - 1, phase) + (if s[k - 1].phase == phase {
            s[k - 1].duration_ms as nat
        } else {
            0nat
        })
    }
}

/// Count Review-phase events carrying a rating other than Again, as a whole
/// and split by the Hard, Good and Easy ratings.
#[verifier::loop_isolation(false)]
pub fn review_rating_stats(revlogs: &Vec<ReviewEvent>) -> (r: (u64, u64, u64, u64))
    requires
        all_wf(revlogs@),
        bounded_len(revlogs@),
    ensures
        r.0 == review_rated_count(revlogs@, revlogs@.len() as int, 2),
        r.1 == review_rated_count(revlogs@, revlogs@.len() as int, 3),
        r.2 == review_rated_count(revlogs@, revlogs@.len() as int, 4),
        r.3 == review_nonagain_count(revlogs@, revlogs@.len() as int),
        r.3 <= revlogs@.len(),
{
    let mut hard: u64 = 0;
    let mut good: u64 = 0;
    let mut easy: u64 = 0;
    let mut total: u64 = 0;
    let mut i: usize = 0;
    while i < revlogs.len()
        invariant
            i <= revlogs@.len(),
            hard == review_rated_count(revlogs@, i as int, 2),
            good == review_rated_count(revlogs@, i as int, 3),
            easy == review_rated_count(revlogs@, i as int, 4),
            total == review_nonagain_count(revlogs@, i as int),
            hard <= i,
            good <= i,
            easy <= i,
            total <= i,
        decreases revlogs@.len() - i,
    {
        let e = revlogs[i];
        if e.phase == Phase::Review && e.rating != 1 {
            total = total + 1;
            if e.rating == 2 {
                hard = hard + 1;
            } else if e.rating == 3 {
                good = good + 1;
            } else if e.rating == 4 {
                easy = easy + 1;
            }
        }
        i = i + 1;
    }
    (hard, good, easy, total)
}

/// The seconds a slot of the recall-cost array holds before any Review-phase
/// event writes it: 14, 14, 10 and 6 seconds for Again, Hard, Good and Easy.
pub open spec fn default_recall_cost(rating: int) -> Ratio {
    if rating <= 2 {
        Ratio { num: 14000, den: 1000 }
    } else if rating == 3 {
        Ratio { num: 10000, den: 1000 }
    } else {
        Ratio { num: 6000, den: 1000 }
    }
}

/// The average answering time, in seconds, of Review-phase events with this
/// rating, or the default where no such event exists.
pub open spec fn recall_cost_spec(s: Seq<ReviewEvent>, rating: int) -> Ratio {
    if recall_count(s, s.len() as int, rating) > 0 {
        Ratio {
            num: recall_duration_ms(s, s.len() as int, rating) as u128,
            den: (recall_count(s, s.len() as int, rating) * 1000) as u128,
        }
    } else {
        default_recall_cost(rating)
    }
}

/// Average the answering time of Review-phase events by rating, seeding each
/// of the four slots with its default; the flag says whether any slot was
/// written at all, so missing data is detected without comparing to the
/// defaults.
#[verifier::loop_isolation(false)]
pub fn recall_stats(revlogs: &Vec<ReviewEvent>) -> (r: ([Ratio; 4], bool))
    requires
        all_wf(revlogs@),
        bounded_len(revlogs@),
    ensures
        r.0[0] == recall_cost_spec(revlogs@, 1),
        r.0[1] == recall_cost_spec(revlogs@, 2),
        r.0[2] == recall_cost_spec(revlogs@, 3),
        r.0[3] == recall_cost_spec(revlogs@, 4),
        r.1 <==> recall_count(revlogs@, revlogs@.len() as int, 1) + recall_count(
            revlogs@,
            revlogs@.len() as int,
            2,
        ) + recall_count(revlogs@, revlogs@.len() as int, 3) + recall_count(
            revlogs@,
            revlogs@.len() as int,
            4,
        ) > 0,
        r.0[0].num <= 0xFFFF_FFFF_FFFF_FFFFu128,
        r.0[1].num <= 0xFFFF_FFFF_FFFF_FFFFu128,
        r.0[2].num <= 0xFFFF_FFFF_FFFF_FFFFu128,
        r.0[3].num <= 0xFFFF_FFFF_FFFF_FFFFu128,
        0 < r.0[0].den <= 4_294_967_296_000u128,
        0 < r.0[1].den <= 4_294_967_296_000u128,
        0 < r.0[2].den <= 4_294_967_296_000u128,
        0 < r.0[3].den <= 4_294_967_296_000u128,
{
    let mut sum1: u64 = 0;
    let mut sum2: u64 = 0;
    let mut sum3: u64 = 0;
    let mut sum4: u64 = 0;
    let mut cnt1: u64 = 0;
    let mut cnt2: u64 = 0;
    let mut cnt3: u64 = 0;
    let mut cnt4: u64 = 0;
    let mut i: usize = 0;
    while i < revlogs.len()
        invariant
            i <= revlogs@.len(),
            cnt1 == recall_count(revlogs@, i as int, 1),
            cnt2 == recall_count(revlogs@, i as int, 2),
            cnt3 == recall_count(revlogs@, i as int, 3),
            cnt4 == recall_count(revlogs@, i as int, 4),
            sum1 == recall_duration_ms(revlogs@, i as int, 1),
            sum2 == recall_duration_ms(revlogs@, i as int, 2),
            sum3 == recall_duration_ms(revlogs@, i as int, 3),
            sum4 == recall_duration_ms(revlogs@, i as int, 4),
            cnt1 <= i,
            cnt2 <= i,
            cnt3 <= i,
            cnt4 <= i,
            sum1 <= i * 0xFFFF_FFFF,
            sum2 <= i * 0xFFFF_FFFF,
            sum3 <= i * 0xFFFF_FFFF,
            sum4 <= i * 0xFFFF_FFFF,
        decreases revlogs@.len() - i,
    {
        let e = revlogs[i];
        if e.phase == Phase::Review {
            if e.rating == 1 {
                cnt1 = cnt1 + 1;
                sum1 = sum1 + e.duration_ms as u64;
            } else if e.rating == 2 {
                cnt2 = cnt2 + 1;
                sum2 = sum2 + e.duration_ms as u64;
            } else if e.rating == 3 {
                cnt3 = cnt3 + 1;
                sum3 = sum3 + e.duration_ms as u64;
            } else if e.rating == 4 {
                cnt4 = cnt4 + 1;
                sum4 = sum4 + e.duration_ms as u64;
            }
        }
        i = i + 1;
    }
    let slot1 = if cnt1 > 0 {
        Ratio { num: sum1 as u128, den: (cnt1 as u128) * 1000 }
    } else {
        Ratio { num: 14000, den: 1000 }
    };
    let slot2 = if cnt2 > 0 {
        Ratio { num: sum2 as u128, den: (cnt2 as u128) * 1000 }
    } else {
        Ratio { num: 14000, den: 1000 }
    };
    let slot3 = if cnt3 > 0 {
        Ratio { num: sum3 as u128, den: (cnt3 as u128) * 1000 }
    } else {
        Ratio { num: 10000, den: 1000 }
    };
    let slot4 = if cnt4 > 0 {
        Ratio { num: sum4 as u128, den: (cnt4 as u128) * 1000 }
    } else {
        Ratio { num: 6000, den: 1000 }
    };
    let written = cnt1 > 0 || cnt2 > 0 || cnt3 > 0 || cnt4 > 0;
    ([slot1, slot2, slot3, slot4], written)
}

/// Sum the time spent in a phase and count that phase's runs: the maximal
/// stretches of adjacent events sharing it.  The average duration of a run
/// is then the quotient of the two.
#[verifier::loop_isolation(false)]
pub fn phase_run_stats(revlogs: &Vec<ReviewEvent>, phase: Phase) -> (r: (u64, u64))
    requires
        all_wf(revlogs@),
        bounded_len(revlogs@),
    ensures
        r.0 == phase_duration_ms(revlogs@, revlogs@.len() as int, phase),
        r.1 == run_count(revlogs@, revlogs@.len() as int, phase),
        r.1 <= revlogs@.len(),
{
    let mut duration: u64 = 0;
    let mut runs: u64 = 0;
    let mut i: usize = 0;
    while i < revlogs.len()
        invariant
            i <= revlogs@.len(),
            duration == phase_duration_ms(revlogs@, i as int, phase),
            runs == run_count(revlogs@, i as int, phase),
            runs <= i,
            duration <= i * 0xFFFF_FFFF,
        decreases revlogs@.len() - i,
    {
        let e = revlogs[i];
        if e.phase == phase {
            let opens_run = i == 0 || revlogs[i - 1].phase != e.phase;
            if opens_run {
                runs = runs + 1;
            }
            duration = duration + e.duration_ms as u64;
        }
        i = i + 1;
    }
    (duration, runs)
}

/// Scan for each card's first graduation and count those events by rating,
/// also summing their durations.  The scan is one linear pass: a flag
/// remembers whether the card under the cursor has already graduated, and
/// resets whenever the card identifier changes.
#[verifier::loop_isolation(false)]
pub fn first_rating_stats(revlogs: &Vec<ReviewEvent>) -> (r: (u64, u64, u64, u64, u64))
    requires
        all_wf(revlogs@),
        grouped_by_card(revlogs@),
        bounded_len(revlogs@),
    ensures
        r.0 == first_rating_count(revlogs@, revlogs@.len() as int, 1),
        r.1 == first_rating_count(revlogs@, revlogs@.len() as int, 2),
        r.2 == first_rating_count(revlogs@, revlogs@.len() as int, 3),
        r.3 == first_rating_count(revlogs@, revlogs@.len() as int, 4),
        r.4 == graduation_duration_ms(revlogs@, revlogs@.len() as int),
        r.0 <= revlogs@.len(),
        r.1 <= revlogs@.len(),
        r.2 <= revlogs@.len(),
        r.3 <= revlogs@.len(),
{
    let ghost s = revlogs@;
    let mut again: u64 = 0;
    let mut hard: u64 = 0;
    let mut good: u64 = 0;
    let mut easy: u64 = 0;
    let mut duration: u64 = 0;
    let mut grad_seen: bool = false;
    let mut i: usize = 0;
    while i < revlogs.len()
        invariant
            i <= s.len(),
            again == first_rating_count(s, i as int, 1),
            hard == first_rating_count(s, i as int, 2),
            good == first_rating_count(s, i as int, 3),
            easy == first_rating_count(s, i as int, 4),
            duration == graduation_duration_ms(s, i as int),
            again <= i,
            hard <= i,
            good <= i,
            easy <= i,
            duration <= i * 0xFFFF_FFFF,
            i == 0 ==> !grad_seen,
            i > 0 ==> (grad_seen <==> exists|j: int|
                0 <= j < i && s[j].card_id == s[i - 1].card_id && is_graduation(#[trigger] s[j])),
        decreases s.len() - i,
    {
        let e = revlogs[i];
        if i > 0 {
            let prev = revlogs[i - 1];
            if e.card_id != prev.card_id {
                proof {
                    // The card changed, and equal cards stand adjacent, so no
                    // earlier event belongs to the card under the cursor.
                    assert forall|j: int| 0 <= j < i implies s[j].card_id != s[i as int].card_id by {
                        if s[j].card_id == s[i as int].card_id && j < i - 1 {
                            assert(s[i - 1].card_id == s[j].card_id);
                        }
                    }
                }
                grad_seen = false;
            }
        }
        proof {
            // After the reset the flag says exactly whether some earlier
            // event of the cursor's card graduates.
            let gi = i as int;
            if i > 0 && s[gi].card_id == s[gi - 1].card_id {
                if grad_seen {
                    let j = choose|j: int|
                        0 <= j < gi && s[j].card_id == s[gi - 1].card_id && is_graduation(s[j]);
                    assert(0 <= j < gi && s[j].card_id == s[gi].card_id && is_graduation(s[j]));
                } else {
                    if exists|j: int|
                        0 <= j < gi && s[j].card_id == s[gi].card_id && is_graduation(
                            #[trigger] s[j],
                        ) {
                        let j = choose|j: int|
                            0 <= j < gi && s[j].card_id == s[gi].card_id && is_graduation(s[j]);
                        assert(0 <= j < gi && s[j].card_id == s[gi - 1].card_id && is_graduation(
                            s[j],
                        ));
                    }
                }
            }
            assert(grad_seen <==> exists|j: int|
                0 <= j < i && s[j].card_id == s[i as int].card_id && is_graduation(
                    #[trigger] s[j],
                ));
        }
        let grad = e.phase == Phase::Learning && e.rating >= 1;
        if grad && !grad_seen {
            proof {
                let gi = i as int;
                assert forall|j: int|
                    0 <= j < gi && s[j].card_id == s[gi].card_id implies !is_graduation(
                    #[trigger] s[j],
                ) by {
                    if is_graduation(s[j]) {
                        assert(exists|j2: int|
                            0 <= j2 < gi && s[j2].card_id == s[gi].card_id && is_graduation(
                                #[trigger] s[j2],
                            ));
                    }
                }
                assert(is_first_graduation(s, gi));
            }
            if e.rating == 1 {
                again = again + 1;
            } else if e.rating == 2 {
                hard = hard + 1;
            } else if e.rating == 3 {
                good = good + 1;
            } else {
                easy = easy + 1;
            }
            duration = duration + e.duration_ms as u64;
            grad_seen = true;
        } else {
            proof {
                let gi = i as int;
                if grad {
                    let j = choose|j: int|
                        0 <= j < gi && s[j].card_id == s[gi].card_id && is_graduation(s[j]);
                    assert(!is_first_graduation(s, gi));
                } else {
                    assert(!is_graduation(s[gi]));
                }
            }
            if grad {
                grad_seen = true;
            }
        }
        proof {
            // The flag is correct for the next cursor position.
            let gi = i as int;
            if grad_seen {
                if !(exists|j: int|
                    0 <= j < gi + 1 && s[j].card_id == s[gi].card_id && is_graduation(
                        #[trigger] s[j],
                    )) {
                    assert(false);
                }
            } else {
                if exists|j: int|
                    0 <= j < gi + 1 && s[j].card_id == s[gi].card_id && is_graduation(
                        #[trigger] s[j],
                    ) {
                    let j = choose|j: int|
                        0 <= j < gi + 1 && s[j].card_id == s[gi].card_id && is_graduation(s[j]);
                    assert(j < gi);
                    assert(false);
                }
            }
        }
        i = i + 1;
    }
    (again, hard, good, easy, duration)
}

/// The four first-rating counts partition the graduation events: every first
/// graduation carries exactly one of the ratings 1 through 4.  Divided by the
/// common denominator, the four first-rating probabilities therefore sum to
/// exactly one whenever any graduation exists.
pub proof fn lemma_first_rating_counts_partition(s: Seq<ReviewEvent>, k: int)
    requires
        all_wf(s),
        0 <= k <= s.len(),
    ensures
        first_rating_count(s, k, 1) + first_rating_count(s, k, 2) + first_rating_count(s, k, 3)
            + first_rating_count(s, k, 4) == graduation_count(s, k),
    decreases k,
{
    if k > 0 {
        lemma_first_rating_counts_partition(s, k - 1);
        assert(s[k - 1].wf());
    }
}

/// No first graduation exists exactly when no event graduates at all: if any
/// event graduates, the earliest same-card graduation is a first one.
pub proof fn lemma_graduation_count_zero(s: Seq<ReviewEvent>, k: int)
    requires
        0 <= k <= s.len(),
    ensures
        (graduation_count(s, k) == 0) <==> (forall|i: int|
            0 <= i < k ==> !is_graduation(#[trigger] s[i])),
    decreases k,
{
    if k > 0 {
        lemma_graduation_count_zero(s, k - 1);
        if is_graduation(s[k - 1]) && !is_first_graduation(s, k - 1) {
            let j = choose|j: int|
                0 <= j < k - 1 && s[j].card_id == s[k - 1].card_id && is_graduation(#[trigger] s[j]);
            assert(!(forall|i: int| 0 <= i < k - 1 ==> !is_graduation(#[trigger] s[i])));
        }
    }
}

/// The review-rated events split by rating into the counts for 0, 2, 3
/// and 4; rating-0 events therefore widen the denominator of the review
/// probabilities without appearing in any numerator.
pub proof fn lemma_review_rating_counts_partition(s: Seq<ReviewEvent>, k: int)
    requires
        all_wf(s),
        0 <= k <= s.len(),
    ensures
        review_rated_count(s, k, 0) + review_rated_count(s, k, 2) + review_rated_count(s, k, 3)
            + review_rated_count(s, k, 4) == review_nonagain_count(s, k),
    decreases k,
{
    if k > 0 {
        lemma_review_rating_counts_partition(s, k - 1);
        assert(s[k - 1].wf());
    }
}

/// The review-rated total is zero exactly when no event is review-rated.
pub proof fn lemma_review_nonagain_count_zero(s: Seq<ReviewEvent>, k: int)
    requires
        0 <= k <= s.len(),
    ensures
        (review_nonagain_count(s, k) == 0) <==> (forall|i: int|
            0 <= i < k ==> !is_review_rated(#[trigger] s[i])),
    decreases k,
{
    if k > 0 {
        lemma_review_nonagain_count_zero(s, k - 1);
    }
}

/// A by-rating review count is zero exactly when no review-rated event
/// carries that rating.
pub proof fn lemma_review_rated_count_zero(s: Seq<ReviewEvent>, k: int, rating: int)
    requires
        0 <= k <= s.len(),
    ensures
        (review_rated_count(s, k, rating) == 0) <==> (forall|i: int|
            0 <= i < k ==> !(is_review_rated(#[trigger] s[i]) && s[i].rating == rating)),
    decreases k,
{
    if k > 0 {
        lemma_review_rated_count_zero(s, k - 1, rating);
    }
}

/// All four recall counts are zero exactly when no Review-phase event
/// carries a rating, the condition under which every recall-cost slot keeps
/// its default.
pub proof fn lemma_recall_counts_zero(s: Seq<ReviewEvent>, k: int)
    requires
        all_wf(s),
        0 <= k <= s.len(),
    ensures
        (recall_count(s, k, 1) + recall_count(s, k, 2) + recall_count(s, k, 3) + recall_count(
            s,
            k,
            4,
        ) == 0) <==> (forall|i: int| 0 <= i < k ==> !has_recall_rating(#[trigger] s[i])),
    decreases k,
{
    if k > 0 {
        lemma_recall_counts_zero(s, k - 1);
        assert(s[k - 1].wf());
    }
}

/// The statistic that a log is too thin to support, if any: no graduation
/// anywhere, else no review-rated event, else no rated Review-phase event.
pub open spec fn missing_statistic(s: Seq<ReviewEvent>) -> Option<Statistic> {
    if forall|i: int| 0 <= i < s.len() ==> !is_graduation(#[trigger] s[i]) {
        Some(Statistic::FirstRating)
    } else if forall|i: int| 0 <= i < s.len() ==> !is_review_rated(#[trigger] s[i]) {
        Some(Statistic::ReviewRating)
    } else if forall|i: int| 0 <= i < s.len() ==> !has_recall_rating(#[trigger] s[i]) {
        Some(Statistic::RecallCost)
    } else {
        None
    }
}

/// The share of first graduations that carry this rating.
pub open spec fn first_rating_probability_spec(s: Seq<ReviewEvent>, rating: int) -> Ratio {
    Ratio {
        num: first_rating_count(s, s.len() as int, rating) as u128,
        den: graduation_count(s, s.len() as int) as u128,
    }
}

/// The share of review-rated events that carry this rating.
pub open spec fn review_rating_probability_spec(s: Seq<ReviewEvent>, rating: int) -> Ratio {
    Ratio {
        num: review_rated_count(s, s.len() as int, rating) as u128,
        den: review_nonagain_count(s, s.len() as int) as u128,
    }
}

/// Seconds spent on a first graduation, averaged over all of them.
pub open spec fn learn_cost_spec(s: Seq<ReviewEvent>) -> Ratio {
    Ratio {
        num: graduation_duration_ms(s, s.len() as int) as u128,
        den: (graduation_count(s, s.len() as int) * 1000) as u128,
    }
}

/// The average summed duration, in seconds, of a Relearning run; zero when
/// no such run exists, so an empty bucket never divides by zero.
pub open spec fn relearning_run_average_spec(s: Seq<ReviewEvent>) -> Ratio {
    if run_count(s, s.len() as int, Phase::Relearning) > 0 {
        Ratio {
            num: phase_duration_ms(s, s.len() as int, Phase::Relearning) as u128,
            den: (run_count(s, s.len() as int, Phase::Relearning) * 1000) as u128,
        }
    } else {
        Ratio { num: 0, den: 1000 }
    }
}

/// Seconds lost to a lapse: the average Relearning run plus the Again
/// recall cost.
pub open spec fn forget_cost_spec(s: Seq<ReviewEvent>) -> Ratio {
    relearning_run_average_spec(s).sum_spec(recall_cost_spec(s, 1))
}

/// The statistical portrait of a learner's review behavior, every entry an
/// exact rational.
#[derive(Clone, Copy, Debug)]
pub struct ParameterBundle {
    /// Probability of each rating 1 through 4 on a card's first graduation.
    pub first_rating_probability: [Ratio; 4],
    /// Probability of Hard, Good and Easy among review-rated events.
    pub review_rating_probability: [Ratio; 3],
    /// Average seconds of a rated Review-phase event, by rating 1 through 4.
    pub recall_cost: [Ratio; 4],
    /// Average seconds of a first graduation.
    pub learn_cost: Ratio,
    /// Average seconds of a Relearning run plus the Again recall cost.
    pub forget_cost: Ratio,
}

impl ParameterBundle {
    /// Every ratio of the bundle denotes a number.
    pub open spec fn wf(self) -> bool {
        &&& self.first_rating_probability[0].wf()
        &&& self.first_rating_probability[1].wf()
        &&& self.first_rating_probability[2].wf()
        &&& self.first_rating_probability[3].wf()
        &&& self.review_rating_probability[0].wf()
        &&& self.review_rating_probability[1].wf()
        &&& self.review_rating_probability[2].wf()
        &&& self.recall_cost[0].wf()
        &&& self.recall_cost[1].wf()
        &&& self.recall_cost[2].wf()
        &&& self.recall_cost[3].wf()
        &&& self.learn_cost.wf()
        &&& self.forget_cost.wf()
    }
}

/// Estimate the parameter bundle from the filtered, ordered event log, or
/// name the first statistic the log cannot support.
///
/// The log must come ordered by card and then by event identifier, as the
/// host's log store hands it over; the estimator itself only relies on equal
/// cards standing adjacent.
#[verifier::loop_isolation(false)]
pub fn get_optimal_retention_parameters(revlogs: &Vec<ReviewEvent>) -> (res: Result<
    ParameterBundle,
    Error,
>)
    requires
        all_wf(revlogs@),
        grouped_by_card(revlogs@),
        bounded_len(revlogs@),
    ensures
        res is Err <==> missing_statistic(revlogs@) is Some,
        missing_statistic(revlogs@) matches Some(st) ==> res == Result::<
            ParameterBundle,
            Error,
        >::Err(Error::InsufficientData(st)),
        res matches Ok(b) ==> ({
            &&& b.wf()
            &&& b.first_rating_probability[0] == first_rating_probability_spec(revlogs@, 1)
            &&& b.first_rating_probability[1] == first_rating_probability_spec(revlogs@, 2)
            &&& b.first_rating_probability[2] == first_rating_probability_spec(revlogs@, 3)
            &&& b.first_rating_probability[3] == first_rating_probability_spec(revlogs@, 4)
            &&& b.review_rating_probability[0] == review_rating_probability_spec(revlogs@, 2)
            &&& b.review_rating_probability[1] == review_rating_probability_spec(revlogs@, 3)
            &&& b.review_rating_probability[2] == review_rating_probability_spec(revlogs@, 4)
            &&& b.recall_cost[0] == recall_cost_spec(revlogs@, 1)
            &&& b.recall_cost[1] == recall_cost_spec(revlogs@, 2)
            &&& b.recall_cost[2] == recall_cost_spec(revlogs@, 3)
            &&& b.recall_cost[3] == recall_cost_spec(revlogs@, 4)
            &&& b.learn_cost == learn_cost_spec(revlogs@)
            &&& b.forget_cost == forget_cost_spec(revlogs@)
        }),
        // the four first-rating probabilities share one positive denominator
        // and their numerators sum to it: as rationals they sum to one
        res matches Ok(b) ==> b.first_rating_probability[0].num
            + b.first_rating_probability[1].num + b.first_rating_probability[2].num
            + b.first_rating_probability[3].num == b.first_rating_probability[0].den,
        // so do the review probabilities, provided no Review-phase event
        // carries rating 0: those widen the denominator only
        res matches Ok(b) ==> (forall|i: int|
            0 <= i < revlogs@.len() ==> !((#[trigger] revlogs@[i]).phase == Phase::Review
                && revlogs@[i].rating == 0)) ==> b.review_rating_probability[0].num
            + b.review_rating_probability[1].num + b.review_rating_probability[2].num
            == b.review_rating_probability[0].den,
{
    let ghost s = revlogs@;
    let ghost n = s.len() as int;
    let (again, hard, good, easy, grad_dur) = first_rating_stats(revlogs);
    let total_first = again + hard + good + easy;
    proof {
        lemma_first_rating_counts_partition(s, n);
        lemma_graduation_count_zero(s, n);
    }
    if total_first == 0 {
        return Err(Error::InsufficientData(Statistic::FirstRating));
    }
    let (review_hard, review_good, review_easy, review_total) = review_rating_stats(revlogs);
    proof {
        lemma_review_nonagain_count_zero(s, n);
    }
    if review_total == 0 {
        return Err(Error::InsufficientData(Statistic::ReviewRating));
    }
    let (recall_cost, recall_written) = recall_stats(revlogs);
    proof {
        lemma_recall_counts_zero(s, n);
    }
    if !recall_written {
        return Err(Error::InsufficientData(Statistic::RecallCost));
    }
    let (relearn_dur, relearn_runs) = phase_run_stats(revlogs, Phase::Relearning);
    let relearn_average = if relearn_runs > 0 {
        Ratio { num: relearn_dur as u128, den: (relearn_runs as u128) * 1000 }
    } else {
        Ratio { num: 0, den: 1000 }
    };
    let again_cost = recall_cost[0];
    proof {
        assert(relearn_average.num * again_cost.den + again_cost.num * relearn_average.den
            <= u128::MAX && relearn_average.den * again_cost.den <= u128::MAX)
            by (nonlinear_arith)
            requires
                relearn_average.num <= 0xFFFF_FFFF_FFFF_FFFFu128,
                again_cost.num <= 0xFFFF_FFFF_FFFF_FFFFu128,
                0 < relearn_average.den <= 4_294_967_296_000u128,
                0 < again_cost.den <= 4_294_967_296_000u128,
        ;
    }
    let forget_cost = relearn_average.sum(again_cost);
    proof {
        lemma_review_rating_counts_partition(s, n);
        lemma_review_rated_count_zero(s, n, 0);
    }
    Ok(
        ParameterBundle {
            first_rating_probability: [
                Ratio { num: again as u128, den: total_first as u128 },
                Ratio { num: hard as u128, den: total_first as u128 },
                Ratio { num: good as u128, den: total_first as u128 },
                Ratio { num: easy as u128, den: total_first as u128 },
            ],
            review_rating_probability: [
                Ratio { num: review_hard as u128, den: review_total as u128 },
                Ratio { num: review_good as u128, den: review_total as u128 },
                Ratio { num: review_easy as u128, den: review_total as u128 },
            ],
            recall_cost,
            learn_cost: Ratio { num: grad_dur as u128, den: (total_first as u128) * 1000 },
            forget_cost,
        },
    )
}

} // verus!
