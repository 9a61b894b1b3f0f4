//! The staging queue of observations that scored below the novelty threshold.
use vstd::prelude::*;

use crate::text::str_eq;

verus! {

/// Review state of a staged observation.
#[derive(Debug, Clone, Copy, PartialEq, Eq, Structural)]
pub enum ObservationPendingStatus {
    Pending,
    Approved,
    Rejected,
    Merged,
}

impl ObservationPendingStatus {
    pub open spec fn sql_text(self) -> Seq<char> {
        match self {
            ObservationPendingStatus::Pending => "pending"@,
            ObservationPendingStatus::Approved => "approved"@,
            ObservationPendingStatus::Rejected => "rejected"@,
            ObservationPendingStatus::Merged => "merged"@,
        }
    }

    pub open spec fn parse_sql(value: Seq<char>) -> Option<ObservationPendingStatus> {
        if value == "pending"@ {
            Some(ObservationPendingStatus::Pending)
        } else if value == "approved"@ {
            Some(ObservationPendingStatus::Approved)
        } else if value == "rejected"@ {
            Some(ObservationPendingStatus::Rejected)
        } else if value == "merged"@ {
            Some(ObservationPendingStatus::Merged)
        } else {
            None
        }
    }

    pub fn as_sql(self) -> (s: &'static str)
        ensures
            s@ == self.sql_text(),
    {
        match self {
            ObservationPendingStatus::Pending => "pending",
            ObservationPendingStatus::Approved => "approved",
            ObservationPendingStatus::Rejected => "rejected",
            ObservationPendingStatus::Merged => "merged",
        }
    }

    pub fn from_sql(value: &str) -> (r: Option<ObservationPendingStatus>)
        ensures
            r == ObservationPendingStatus::parse_sql(value@),
    {
        if str_eq(value, "pending") {
            Some(ObservationPendingStatus::Pending)
        } else if str_eq(value, "approved") {
            Some(ObservationPendingStatus::Approved)
        } else if str_eq(value, "rejected") {
            Some(ObservationPendingStatus::Rejected)
        } else if str_eq(value, "merged") {
            Some(ObservationPendingStatus::Merged)
        } else {
            None
        }
    }
}

/// Reading back the stored text of a status gives that status.
pub proof fn lemma_observation_pending_status_sql_round_trip(status: ObservationPendingStatus)
    ensures
        ObservationPendingStatus::parse_sql(status.sql_text()) == Some(status),
{
    reveal_strlit("pending");
    reveal_strlit("approved");
    reveal_strlit("rejected");
    reveal_strlit("merged");
    assert("pending"@.len() == 7);
    assert("merged"@.len() == 6);
    assert("approved"@[0] == 'a');
    assert("rejected"@[0] == 'r');
}

/// An observation staged for Admin review.
#[derive(Debug, Clone, PartialEq)]
pub struct PendingObservation {
    pub id: i64,
    pub status: ObservationPendingStatus,
    pub bank_key_guess: Option<String>,
    pub source_entry_hash: String,
    /// Opaque JSON written by the learning engine; never interpreted here.
    pub payload: String,
    pub created_at: String,
}

/// What staging an observation does to the queue.
#[derive(Debug, Clone, Copy, PartialEq, Eq, Structural)]
pub enum StagingAction {
    /// Overwrite the guess and payload of the still-pending row with this id.
    UpdateExisting(i64),
    /// Start a new pending row.
    InsertNew,
}

/// Staging an entry hash that already has a pending row (given here as the
/// row the queue holds for that hash in status `Pending`) updates that row in
/// place; otherwise (never staged, or every earlier row already resolved) a
/// fresh pending row is started.
pub fn plan_staging(pending_for_hash: Option<&PendingObservation>) -> (r: StagingAction)
    ensures
        match pending_for_hash {
            Some(p) => r == StagingAction::UpdateExisting(p.id),
            None => r == StagingAction::InsertNew,
        },
{
    match pending_for_hash {
        Some(p) => StagingAction::UpdateExisting(p.id),
        None => StagingAction::InsertNew,
    }
}

/// The status a freshly staged row starts in.
pub fn initial_status() -> (r: ObservationPendingStatus)
    ensures
        r == ObservationPendingStatus::Pending,
{
    ObservationPendingStatus::Pending
}

} // verus!
