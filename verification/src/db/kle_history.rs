//! The learning engine's append-only history, looked up by entry hash.
use vstd::prelude::*;

verus! {

#[derive(Debug, Clone, PartialEq)]
pub struct SearchEvent {
    pub id: i64,
    pub entry_hash: String,
    pub timestamp: String,
    pub query: String,
}

#[derive(Debug, Clone, PartialEq)]
pub struct SelectionEvent {
    pub id: i64,
    pub entry_hash: String,
    pub timestamp: String,
    pub chosen_bank_key: Option<String>,
}

#[derive(Debug, Clone, PartialEq)]
pub struct RejectionEvent {
    pub id: i64,
    pub entry_hash: String,
    pub timestamp: String,
    pub rejected_bank_key: Option<String>,
}

#[derive(Debug, Clone, PartialEq)]
pub struct EditEvent {
    pub id: i64,
    pub entry_hash: String,
    pub timestamp: String,
    pub before: Option<String>,
    pub after: Option<String>,
}

#[derive(Debug, Clone, PartialEq)]
pub struct ApprovalEvent {
    pub id: i64,
    pub entry_hash: String,
    pub timestamp: String,
    pub admin_user_id: Option<String>,
}

#[derive(Debug, Clone, PartialEq)]
pub struct ConfidenceEvent {
    pub id: i64,
    pub entry_hash: String,
    pub timestamp: String,
    /// Opaque JSON written by the learning engine.
    pub breakdown_json: String,
}

/// The full recorded lifecycle of one entry hash across every history table.
#[derive(Debug, Clone, Default, PartialEq)]
pub struct EntryTimeline {
    pub searches: Vec<SearchEvent>,
    pub selections: Vec<SelectionEvent>,
    pub rejections: Vec<RejectionEvent>,
    pub edits: Vec<EditEvent>,
    pub approvals: Vec<ApprovalEvent>,
    pub confidence_snapshots: Vec<ConfidenceEvent>,
}

impl EntryTimeline {
    /// A timeline with nothing recorded.
    pub fn empty() -> (r: EntryTimeline)
        ensures
            r.searches@.len() == 0,
            r.selections@.len() == 0,
            r.rejections@.len() == 0,
            r.edits@.len() == 0,
            r.approvals@.len() == 0,
            r.confidence_snapshots@.len() == 0,
    {
        EntryTimeline {
            searches: Vec::new(),
            selections: Vec::new(),
            rejections: Vec::new(),
            edits: Vec::new(),
            approvals: Vec::new(),
            confidence_snapshots: Vec::new(),
        }
    }
}

/// The rejection ratio's numerator and denominator: rejections over all
/// logged decisions (rejections plus selections), or `None` when nothing has
/// been logged, rather than a misleading zero.
pub fn rejection_ratio_terms(selections: i64, rejections: i64) -> (r: Option<(i64, i64)>)
    requires
        0 <= selections,
        0 <= rejections,
        selections + rejections <= i64::MAX,
    ensures
        selections + rejections == 0 ==> r is None,
        selections + rejections > 0 ==> r == Some((rejections, (selections + rejections) as i64)),
{
    let total = selections + rejections;
    if total == 0 {
        return None;
    }
    Some((rejections, total))
}

} // verus!
