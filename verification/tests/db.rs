use aditup::db::audits::{initial_status, plan_advance, Audit, AuditStatus};
use aditup::db::error::DbError;
use aditup::db::keyword_bank::{check_normalized_term, prepare_term};
use aditup::db::kle_history::{rejection_ratio_terms, EntryTimeline};
use aditup::db::kle_merge_requests::{is_same_pair, MergeRequestStatus};
use aditup::db::kle_pending_observations::{
    plan_staging, ObservationPendingStatus, PendingObservation, StagingAction,
};
use aditup::db::kle_pending_terms::{
    check_normalized_synonym, initial_contexts, merge_context, prepare_pending_synonym,
    record_sighting, PendingKeyword,
    TermPendingStatus,
};
use aditup::db::observations::compute_entry_hash;
use aditup::db::records::{
    bumped_version, check_bank_key, check_legal_clause, edited_row_version, UserRole,
};
use aditup::db::stage2_assessments::RiskLevel;
use aditup::db::stage3_matches::Stage3MatchStatus;
use aditup::db::synonym_bank::{check_normalized_pair, prepare_pair};
use aditup::db::terms::{is_blank, normalize_term};

fn audit(status: AuditStatus) -> Audit {
    Audit {
        id: "audit-1".to_string(),
        site_id: "site-1".to_string(),
        auditor_user_id: "user-1".to_string(),
        audit_date: "2026-07-04".to_string(),
        status,
        scope_notes: Some("Routine quarterly walkaround".to_string()),
    }
}

fn invalid_input_message(e: DbError) -> String {
    match e {
        DbError::InvalidInput(m) => m,
        other => panic!("expected InvalidInput, got {other:?}"),
    }
}

#[test]
fn entry_hash_is_deterministic_for_same_location_and_text() {
    let a = compute_entry_hash(Some("Bay 3"), "Fire extinguisher missing seal");
    let b = compute_entry_hash(Some("Bay 3"), "Fire extinguisher missing seal");
    assert_eq!(a, b);
}

#[test]
fn entry_hash_differs_when_location_or_text_differ() {
    let base = compute_entry_hash(Some("Bay 3"), "Fire extinguisher missing seal");
    let diff_location = compute_entry_hash(Some("Bay 4"), "Fire extinguisher missing seal");
    let diff_text = compute_entry_hash(Some("Bay 3"), "Fire extinguisher expired");
    assert_ne!(base, diff_location);
    assert_ne!(base, diff_text);
}

#[test]
fn entry_hash_is_lower_hex_sha256_of_location_bar_text() {
    // SHA-256 of "|" (no location, empty text).
    assert_eq!(
        compute_entry_hash(None, ""),
        "cbe5cfdf7c2118a9c3d78ef1d684f3afa089201352886449a06a6511cfef74a7"
    );
    // A missing location hashes like an empty one.
    assert_eq!(compute_entry_hash(None, "x"), compute_entry_hash(Some(""), "x"));
    assert_eq!(compute_entry_hash(Some("Bay 3"), "x").len(), 64);
}

#[test]
fn new_audit_starts_in_draft() {
    assert_eq!(initial_status(), AuditStatus::Draft);
}

#[test]
fn advance_status_walks_through_every_stage_in_order() {
    let after_1 = plan_advance(Some(&audit(initial_status()))).unwrap();
    assert_eq!(after_1, AuditStatus::Stage2);
    let after_2 = plan_advance(Some(&audit(after_1))).unwrap();
    assert_eq!(after_2, AuditStatus::Stage3);
    let after_3 = plan_advance(Some(&audit(after_2))).unwrap();
    assert_eq!(after_3, AuditStatus::Finalized);
}

#[test]
fn advance_status_is_a_no_op_once_finalized() {
    let mut status = initial_status();
    for _ in 0..3 {
        status = plan_advance(Some(&audit(status))).unwrap();
    }
    let finalized_again = plan_advance(Some(&audit(status))).unwrap();
    assert_eq!(finalized_again, AuditStatus::Finalized);
}

#[test]
fn advancing_an_unknown_audit_is_not_found() {
    assert!(matches!(plan_advance(None), Err(DbError::NotFound)));
}

#[test]
fn statuses_round_trip_through_their_column_text() {
    for s in [AuditStatus::Draft, AuditStatus::Stage2, AuditStatus::Stage3, AuditStatus::Finalized] {
        assert_eq!(AuditStatus::from_sql(s.as_sql()), Some(s));
    }
    assert_eq!(AuditStatus::Stage2.as_sql(), "stage2");
    for s in [RiskLevel::Low, RiskLevel::Medium, RiskLevel::High, RiskLevel::Critical] {
        assert_eq!(RiskLevel::from_sql(s.as_sql()), Some(s));
    }
    assert_eq!(RiskLevel::Critical.as_sql(), "critical");
    for s in [Stage3MatchStatus::Matched, Stage3MatchStatus::Written, Stage3MatchStatus::Escalated] {
        assert_eq!(Stage3MatchStatus::from_sql(s.as_sql()), Some(s));
    }
    for s in [
        ObservationPendingStatus::Pending,
        ObservationPendingStatus::Approved,
        ObservationPendingStatus::Rejected,
        ObservationPendingStatus::Merged,
    ] {
        assert_eq!(ObservationPendingStatus::from_sql(s.as_sql()), Some(s));
    }
    for s in [TermPendingStatus::Pending, TermPendingStatus::Approved, TermPendingStatus::Rejected] {
        assert_eq!(TermPendingStatus::from_sql(s.as_sql()), Some(s));
    }
    for s in [
        MergeRequestStatus::Pending,
        MergeRequestStatus::Merged,
        MergeRequestStatus::KeptBoth,
        MergeRequestStatus::Discarded,
    ] {
        assert_eq!(MergeRequestStatus::from_sql(s.as_sql()), Some(s));
    }
    assert_eq!(MergeRequestStatus::KeptBoth.as_sql(), "kept_both");
    for s in [UserRole::Auditor, UserRole::Admin] {
        assert_eq!(UserRole::from_sql(s.as_sql()), Some(s));
    }
    assert_eq!(AuditStatus::from_sql("archived"), None);
    assert_eq!(RiskLevel::from_sql("LOW"), None);
    assert_eq!(UserRole::from_sql(""), None);
}

#[test]
fn get_or_create_starts_escalated() {
    assert_eq!(Stage3MatchStatus::initial(), Stage3MatchStatus::Escalated);
    assert!(!Stage3MatchStatus::initial().is_resolved());
    assert!(Stage3MatchStatus::Matched.is_resolved());
    assert!(Stage3MatchStatus::Written.is_resolved());
}

#[test]
fn terms_are_normalized_to_lowercase_and_trimmed() {
    assert_eq!(prepare_term("  Scaffold  ").unwrap(), "scaffold");
    assert_eq!(normalize_term("\tFIRE Hydrant \n"), "fire hydrant");
}

#[test]
fn empty_term_is_rejected() {
    let e = prepare_term("   ").unwrap_err();
    assert_eq!(invalid_input_message(e), "term must not be empty");
    assert!(is_blank(" \t"));
    assert!(!is_blank(" a "));
}

#[test]
fn create_then_get_round_trips_normalized() {
    let (a, b) = prepare_pair("Extinguisher", "FIRE EXTINGUISHER").unwrap();
    assert_eq!(a, "extinguisher");
    assert_eq!(b, "fire extinguisher");
}

#[test]
fn a_term_cannot_be_a_synonym_of_itself() {
    let e = prepare_pair("scaffold", "Scaffold").unwrap_err();
    assert_eq!(invalid_input_message(e), "a term cannot be a synonym of itself");
}

#[test]
fn empty_terms_are_rejected() {
    let e = prepare_pair("", "scaffold").unwrap_err();
    assert_eq!(invalid_input_message(e), "term_a/term_b must not be empty");
}

#[test]
fn pending_synonym_rejects_self_pairing() {
    assert!(prepare_pending_synonym("scaffold", "Scaffold").is_err());
    let (a, b) = prepare_pending_synonym("Extinguisher", "fire extinguisher").unwrap();
    assert_eq!((a.as_str(), b.as_str()), ("extinguisher", "fire extinguisher"));
}

#[test]
fn observing_the_same_term_again_bumps_frequency_instead_of_duplicating() {
    let first = PendingKeyword {
        id: 7,
        term: "scaffold".to_string(),
        contexts: initial_contexts(Some("bank_a")),
        frequency_observed: 1,
        status: TermPendingStatus::Pending,
    };
    let second = record_sighting(&first, Some("bank_b"));
    assert_eq!(first.id, second.id);
    assert_eq!(second.frequency_observed, 2);
    assert_eq!(second.contexts.len(), 2);
    assert_eq!(second.status, TermPendingStatus::Pending);
}

#[test]
fn observing_the_same_context_twice_does_not_duplicate_it() {
    let first = PendingKeyword {
        id: 1,
        term: "scaffold".to_string(),
        contexts: initial_contexts(Some("bank_a")),
        frequency_observed: 1,
        status: TermPendingStatus::Pending,
    };
    let second = record_sighting(&first, Some("bank_a"));
    assert_eq!(second.contexts, vec!["bank_a".to_string()]);
    assert_eq!(second.frequency_observed, 2);
}

#[test]
fn merging_contexts_keeps_order_and_skips_absent_ones() {
    let contexts = vec!["a".to_string(), "b".to_string()];
    assert_eq!(merge_context(&contexts, Some("c")), vec!["a", "b", "c"]);
    assert_eq!(merge_context(&contexts, Some("a")), vec!["a", "b"]);
    assert_eq!(merge_context(&contexts, None), vec!["a", "b"]);
    assert!(initial_contexts(None).is_empty());
}

#[test]
fn upsert_on_the_same_hash_updates_the_existing_pending_row_not_a_duplicate() {
    let pending = PendingObservation {
        id: 12,
        status: ObservationPendingStatus::Pending,
        bank_key_guess: Some("bank_a".to_string()),
        source_entry_hash: "hash-1".to_string(),
        payload: "{\"v\":1}".to_string(),
        created_at: "2026-07-04T10:00:00Z".to_string(),
    };
    assert_eq!(plan_staging(Some(&pending)), StagingAction::UpdateExisting(12));
}

#[test]
fn upsert_after_resolution_starts_a_fresh_pending_row() {
    assert_eq!(plan_staging(None), StagingAction::InsertNew);
}

#[test]
fn create_if_absent_is_idempotent_regardless_of_argument_order() {
    assert!(is_same_pair(1, 2, 1, 2));
    assert!(is_same_pair(1, 2, 2, 1));
    assert!(!is_same_pair(1, 2, 1, 3));
}

#[test]
fn rejection_ratio_is_none_when_nothing_logged() {
    assert_eq!(rejection_ratio_terms(0, 0), None);
}

#[test]
fn rejection_ratio_reflects_the_mix_of_selections_and_rejections() {
    assert_eq!(rejection_ratio_terms(3, 1), Some((1, 4)));
}

#[test]
fn timeline_for_an_unknown_entry_hash_is_all_empty() {
    let t = EntryTimeline::empty();
    assert!(t.searches.is_empty());
    assert!(t.selections.is_empty());
    assert!(t.rejections.is_empty());
    assert!(t.edits.is_empty());
    assert!(t.approvals.is_empty());
    assert!(t.confidence_snapshots.is_empty());
    assert_eq!(EntryTimeline::default(), t);
}

#[test]
fn empty_standard_or_clause_is_rejected() {
    assert!(check_legal_clause("", "Clause 1").is_err());
    assert!(check_legal_clause("IS 2190:2024", "").is_err());
    assert!(check_legal_clause("IS 2190:2024", "Clause 6.2").is_ok());
}

#[test]
fn empty_bank_key_is_rejected() {
    assert!(check_bank_key("").is_err());
    assert!(check_bank_key("fire_extinguisher_is2190").is_ok());
}

#[test]
fn bump_creates_version_one_then_increments() {
    assert_eq!(bumped_version(None), 1);
    assert_eq!(bumped_version(Some(1)), 2);
    assert_eq!(edited_row_version(1), 2);
}

#[test]
fn checks_on_normalised_terms() {
    assert_eq!(check_normalized_term("scaffold".to_string()).unwrap(), "scaffold");
    assert!(check_normalized_term(String::new()).is_err());
    let e = check_normalized_pair("a".to_string(), "a".to_string()).unwrap_err();
    assert_eq!(invalid_input_message(e), "a term cannot be a synonym of itself");
    let e = check_normalized_pair(String::new(), "a".to_string()).unwrap_err();
    assert_eq!(invalid_input_message(e), "term_a/term_b must not be empty");
    assert_eq!(
        check_normalized_pair("a".to_string(), "b".to_string()).unwrap(),
        ("a".to_string(), "b".to_string())
    );
    let e = check_normalized_synonym("x".to_string(), "x".to_string()).unwrap_err();
    assert_eq!(invalid_input_message(e), "term_a/term_b must be non-empty and distinct");
}

#[test]
fn creating_a_row_publishes_bank_version_one() {
    assert_eq!(bumped_version(None), 1);
}

#[test]
fn a_second_row_in_the_same_bank_bumps_the_bank_version_again() {
    assert_eq!(bumped_version(Some(bumped_version(None))), 2);
}

#[test]
fn update_text_bumps_the_rows_own_version() {
    assert_eq!(edited_row_version(1), 2);
}

#[test]
fn upsert_creates_a_new_pending_row() {
    assert_eq!(plan_staging(None), StagingAction::InsertNew);
}

#[test]
fn observe_creates_a_new_pending_keyword_with_frequency_one() {
    assert_eq!(normalize_term("toe-board"), "toe-board");
    assert_eq!(initial_contexts(Some("fire_hydrant")), vec!["fire_hydrant".to_string()]);
}

#[test]
fn update_text_recomputes_entry_hash() {
    let before = compute_entry_hash(Some("Loc"), "Original");
    let after = compute_entry_hash(Some("Loc"), "Edited");
    assert_ne!(before, after);
}

#[test]
fn get_by_term_is_case_insensitive() {
    assert_eq!(normalize_term("SCAFFOLD"), normalize_term("scaffold"));
}
