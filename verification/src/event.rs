use vstd::prelude::*;

verus! {

/// The stage of an item's lifecycle at the time of a review event.
#[derive(Clone, Copy, Debug, PartialEq, Eq, Structural)]
pub enum Phase {
    Learning,
    Review,
    Relearning,
    FilteredLearning,
    Manual,
}

/// One entry of the study-event log, as the host's log store hands it over.
///
/// `rating` is 0 when no rating was recorded and 1 (Again) through 4 (Easy)
/// otherwise; only ratings 1 through 4 enter the statistics.
#[derive(Clone, Copy, Debug, PartialEq, Eq, Structural)]
pub struct ReviewEvent {
    /// Identifier of the reviewed item.
    pub card_id: i64,
    /// Identifier unique within a card, assigned in creation order.
    pub event_id: i64,
    /// Lifecycle stage when the event happened.
    pub phase: Phase,
    /// 0 for none, 1 = Again, 2 = Hard, 3 = Good, 4 = Easy.
    pub rating: u8,
    /// Time spent answering, in milliseconds.
    pub duration_ms: u32,
}

impl ReviewEvent {
    /// The log store only produces ratings between 0 and 4.
    pub open spec fn wf(self) -> bool {
        self.rating <= 4
    }
}

/// Every event of the sequence is well formed.
pub open spec fn all_wf(s: Seq<ReviewEvent>) -> bool {
    forall|i: int| 0 <= i < s.len() ==> (#[trigger] s[i]).wf()
}

/// Events with equal card identifiers stand next to each other, as they do
/// when the log comes ordered by card and then by event identifier.
pub open spec fn grouped_by_card(s: Seq<ReviewEvent>) -> bool {
    forall|i: int, j: int, k: int|
        #![trigger s[i], s[j], s[k]]
        0 <= i < j < k < s.len() && s[i].card_id == s[k].card_id ==> s[j].card_id == s[i].card_id
}

} // verus!
