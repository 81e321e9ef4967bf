//! The Status Query's computing half: a freshly read raw status record
//! (type bitmask and state code) becomes a classified snapshot. The host
//! opens the service with query-status rights, reads the record, and hands
//! the two raw numbers in.

use vstd::prelude::*;

use crate::classify::ServiceCategory;
use crate::classify::ServiceState;
use crate::classify::classified_value;
use crate::classify::classify_state;
use crate::classify::classify_type;
use crate::classify::is_eligible;
use crate::classify::spec_classified_value;
use crate::classify::spec_classify_state;
use crate::classify::spec_classify_type;
use crate::classify::spec_eligible;

verus! {

/// A classified view of one service at one instant: the raw numbers as
/// read, and everything the classifier derives from them. Produced fresh
/// on every query and discarded after use; service state can change
/// between calls, so a snapshot is never cached.
#[derive(Clone, Copy, Debug, PartialEq, Eq, Structural)]
pub struct ServiceSnapshot {
    /// The raw type bitmask of the native status record.
    pub raw_type: u32,
    /// The raw state code of the native status record.
    pub raw_state: u32,
    /// The category the classifier decided.
    pub category: ServiceCategory,
    /// The lifecycle state the classifier decided.
    pub state: ServiceState,
    /// The canonical classification value carried downstream.
    pub classified_type: u32,
    /// Whether control operations may touch this service.
    pub can_interact: bool,
}

impl ServiceSnapshot {
    /// Every derived field agrees with the classifier on the raw fields.
    pub open spec fn wf(self) -> bool {
        &&& self.category == spec_classify_type(self.raw_type)
        &&& self.state == spec_classify_state(self.raw_state)
        &&& self.classified_type == spec_classified_value(self.raw_type)
        &&& self.can_interact == spec_eligible(self.category)
    }
}

/// Classify a raw status record into a snapshot. This is the deciding
/// half of a status query; the host makes the privileged read and passes
/// the record's two numbers here.
pub fn classify_status(raw_type: u32, raw_state: u32) -> (snapshot: ServiceSnapshot)
    ensures
        snapshot.wf(),
        snapshot.raw_type == raw_type,
        snapshot.raw_state == raw_state,
{
    let category = classify_type(raw_type);
    ServiceSnapshot {
        raw_type,
        raw_state,
        category,
        state: classify_state(raw_state),
        classified_type: classified_value(raw_type),
        can_interact: is_eligible(&category),
    }
}

/// A snapshot's interaction flag is exactly the eligibility the
/// classifier computes directly on the snapshot's own raw type bitmask.
pub proof fn lemma_snapshot_matches_classifier(snapshot: ServiceSnapshot)
    requires
        snapshot.wf(),
    ensures
        snapshot.can_interact == spec_eligible(spec_classify_type(snapshot.raw_type)),
{
}

} // verus!
