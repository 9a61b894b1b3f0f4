//! Outcomes and Admin decisions of the learning loop.
use vstd::prelude::*;

verus! {

/// The result of capturing an entry.
#[derive(Debug, Clone, Copy, PartialEq, Eq, Structural)]
pub enum CaptureOutcome {
    /// Confidence was at or above the novelty threshold: nothing staged.
    ConfidentMatch,
    /// Below the threshold: staged (or re-staged) at this pending id.
    Staged(i64),
}

/// An Admin's decision on one pending observation.
#[derive(Debug, Clone, Copy, PartialEq, Eq, Structural)]
pub enum PendingDecision {
    Approve,
    Reject,
}

/// An Admin's decision on one merge request.
#[derive(Debug, Clone, Copy, PartialEq, Eq, Structural)]
pub enum MergeDecision {
    /// Candidate B is folded away; candidate A goes on through the normal
    /// approve/reject flow.
    Merge,
    /// Similar but distinct: both are left as they are.
    KeepBoth,
    /// Neither is worth pursuing: both are rejected.
    Discard,
}

} // verus!
