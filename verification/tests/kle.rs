use aditup::db::error::DbError;
use aditup::db::kle_merge_requests::MergeRequestStatus;
use aditup::db::kle_pending_observations::ObservationPendingStatus;
use aditup::kle::engine::{
    capture_outcome, check_publishable, pairs_to_merge, plan_capture, plan_merge_resolution,
    plan_pending_resolution, CapturePlan,
};
use aditup::kle::error::KleError;
use aditup::kle::types::{CaptureOutcome, MergeDecision, PendingDecision};

#[test]
fn capture_entry_stages_a_below_threshold_observation_and_logs_confidence() {
    let plan = plan_capture(true);
    assert_eq!(plan, CapturePlan::StageAndMine);
    assert_eq!(capture_outcome(plan, 42), CaptureOutcome::Staged(42));
}

#[test]
fn capture_entry_does_not_stage_a_confident_match() {
    let plan = plan_capture(false);
    assert_eq!(plan, CapturePlan::LeaveUnstaged);
    assert_eq!(capture_outcome(plan, 42), CaptureOutcome::ConfidentMatch);
}

#[test]
fn resolve_pending_approve_logs_an_approval_event() {
    let r = plan_pending_resolution(5, Some(ObservationPendingStatus::Pending), PendingDecision::Approve)
        .unwrap();
    assert_eq!(r.new_status, ObservationPendingStatus::Approved);
    assert!(r.log_approval);
}

#[test]
fn resolve_pending_reject_does_not_log_an_approval_event() {
    let r = plan_pending_resolution(5, Some(ObservationPendingStatus::Pending), PendingDecision::Reject)
        .unwrap();
    assert_eq!(r.new_status, ObservationPendingStatus::Rejected);
    assert!(!r.log_approval);
}

#[test]
fn resolve_pending_on_an_already_resolved_id_errors() {
    let r = plan_pending_resolution(5, Some(ObservationPendingStatus::Approved), PendingDecision::Reject);
    assert!(matches!(r, Err(KleError::NotPending(5))));
    let r = plan_pending_resolution(9, None, PendingDecision::Approve);
    assert!(matches!(r, Err(KleError::NotPending(9))));
}

#[test]
fn resolve_merge_request_merge_folds_candidate_b_away() {
    let r = plan_merge_resolution(Some((1, 2)), MergeDecision::Merge).unwrap();
    assert_eq!(r.candidate_updates, vec![(2, ObservationPendingStatus::Merged)]);
    assert_eq!(r.request_status, MergeRequestStatus::Merged);
}

#[test]
fn resolve_merge_request_discard_rejects_both_candidates() {
    let r = plan_merge_resolution(Some((1, 2)), MergeDecision::Discard).unwrap();
    assert_eq!(
        r.candidate_updates,
        vec![(1, ObservationPendingStatus::Rejected), (2, ObservationPendingStatus::Rejected)]
    );
    assert_eq!(r.request_status, MergeRequestStatus::Discarded);
    let keep = plan_merge_resolution(Some((1, 2)), MergeDecision::KeepBoth).unwrap();
    assert!(keep.candidate_updates.is_empty());
    assert_eq!(keep.request_status, MergeRequestStatus::KeptBoth);
    assert!(matches!(
        plan_merge_resolution(None, MergeDecision::Merge),
        Err(KleError::Db(DbError::NotFound))
    ));
}

#[test]
fn commit_publish_requires_approved_status() {
    assert!(matches!(
        check_publishable(3, Some(ObservationPendingStatus::Pending)),
        Err(KleError::NotApproved(3))
    ));
    assert!(matches!(check_publishable(3, None), Err(KleError::Db(DbError::NotFound))));
}

#[test]
fn commit_publish_creates_the_official_row_and_marks_pending_merged() {
    assert_eq!(
        check_publishable(3, Some(ObservationPendingStatus::Approved)).unwrap(),
        ObservationPendingStatus::Merged
    );
}

#[test]
fn cluster_pending_creates_a_merge_request_for_near_duplicate_observations() {
    let meets = vec![
        vec![true, true, false],
        vec![true, true, true],
        vec![false, true, true],
    ];
    assert_eq!(pairs_to_merge(&meets), vec![(0, 1), (1, 2)]);
    let none = vec![vec![true, false], vec![false, true]];
    assert!(pairs_to_merge(&none).is_empty());
    assert!(pairs_to_merge(&Vec::new()).is_empty());
}

#[test]
fn capture_entry_mines_keywords_only_for_staged_observations() {
    assert_eq!(plan_capture(true), CapturePlan::StageAndMine);
    assert_ne!(plan_capture(false), CapturePlan::StageAndMine);
}
