use aditup::db::records::RecommendationBankEntry;
use aditup::db::stage2_assessments::{RiskLevel, Stage2Assessment};
use aditup::db::stage3_matches::Stage3MatchStatus;
use aditup::desktop::admin::CommitPublishInput;
use aditup::desktop::analytics::{
    count_risk_levels, count_stage3_statuses, tally_audit, tally_labels, top_labels, top_n,
    LabeledCount, RiskLevelCounts, Stage3StatusCounts,
};
use aditup::desktop::auth::{
    check_setup, check_setup_status, decide_unlock, session_status, AttemptRecord, SetupResult,
    UnlockAttempt,
};
use aditup::desktop::security::{
    audit_log_info, get_encryption_key_status, read_audit_event, rotate_encryption_key,
    AuditEventKind, AuditOutcome, LogAuditEventInput,
};
use aditup::desktop::session::{
    admin_access, data_access, elevate_admin, exit_admin, initial_access, lock, unlock,
    AccessDenied, AccessState,
};
use aditup::desktop::settings::{
    apply_settings_update, backup_directory, get_app_settings, get_backup_status,
    get_security_settings, update_app_settings, UpdateSettingsInput,
};
use aditup::desktop::audit_trail::{compute_trail_hash, record_audit_event, verify_audit_integrity};
use aditup::recommendation::{recommendation_texts, rows_to_score, search_scope};

fn no_update() -> UpdateSettingsInput {
    UpdateSettingsInput {
        recommendation_mode: None,
        auto_backup_enabled: None,
        backup_interval_days: None,
        idle_timeout_minutes: None,
        encryption_enabled: None,
    }
}

fn counted(label: &str, count: usize) -> LabeledCount {
    LabeledCount { label: label.to_string(), count }
}

fn assessed(level: RiskLevel, category: Option<&str>, department: Option<&str>) -> Stage2Assessment {
    Stage2Assessment {
        id: "a".to_string(),
        observation_id: "o".to_string(),
        risk_level: level,
        category: category.map(|c| c.to_string()),
        department: department.map(|d| d.to_string()),
        equipment: None,
        legal_clause_id: None,
    }
}

fn audit_event(event_type: &str, result: &str) -> LogAuditEventInput {
    LogAuditEventInput {
        event_type: event_type.to_string(),
        user_id: Some("owner".to_string()),
        action: "login".to_string(),
        resource: "session".to_string(),
        result: result.to_string(),
        details: None,
    }
}

#[test]
fn default_recommendation_mode_is_rule_based() {
    let settings = get_app_settings();
    assert_eq!(settings.recommendation_mode, "mode-1-rule-based");
}

#[test]
fn default_settings_are_the_documented_ones() {
    let s = get_app_settings();
    assert!(!s.auto_backup_enabled);
    assert_eq!(s.backup_interval_days, 7);
    assert_eq!(s.idle_timeout_minutes, 15);
    assert!(s.encryption_enabled);
}

#[test]
fn settings_update_replaces_only_the_given_fields() {
    let mut input = no_update();
    input.idle_timeout_minutes = Some(30);
    input.recommendation_mode = Some("mode-2-supervised".to_string());
    let s = update_app_settings(input.clone());
    assert_eq!(s.recommendation_mode, "mode-2-supervised");
    assert_eq!(s.idle_timeout_minutes, 30);
    assert_eq!(s.backup_interval_days, 7);
    assert!(s.encryption_enabled);
    let twice = apply_settings_update(s.clone(), input);
    assert_eq!(twice, s);
    assert_eq!(update_app_settings(no_update()), get_app_settings());
}

#[test]
fn backup_status_and_directory() {
    let status = get_backup_status("/home/alice");
    assert_eq!(status.backup_location, "/home/alice/.aditup-backups");
    assert_eq!(status.backup_count, 0);
    assert!(status.last_backup.is_none());
    assert_eq!(backup_directory(Some("/data/b".to_string()), "/home/alice"), "/data/b");
    assert_eq!(backup_directory(None, ""), "/.aditup-backups");
}

#[test]
fn security_settings_policy() {
    let s = get_security_settings();
    assert_eq!(s.password_policy.min_length, 12);
    assert!(s.password_policy.require_uppercase && s.password_policy.require_digits);
    assert!(s.password_policy.require_special);
    assert_eq!(s.session_timeout_minutes, 15);
    assert!(s.encryption_at_rest && s.audit_logging_enabled);
}

#[test]
fn audit_events_are_read_and_described() {
    let input = audit_event("config_change", "denied");
    let (kind, outcome) = read_audit_event(&input).unwrap();
    assert_eq!(kind, AuditEventKind::ConfigurationChange);
    assert_eq!(outcome, AuditOutcome::Denied);
    let info = audit_log_info("id-1".to_string(), "2026-07-04T10:00:00Z".to_string(), kind, outcome, input);
    assert_eq!(info.event_type, "ConfigurationChange");
    assert_eq!(info.result, "Denied");
    assert_eq!(info.action, "login");
    assert_eq!(info.user_id, Some("owner".to_string()));
    assert_eq!(
        read_audit_event(&audit_event("login", "success")),
        Err("unknown event type: login".to_string())
    );
    assert_eq!(
        read_audit_event(&audit_event("auth", "ok")),
        Err("unknown result type: ok".to_string())
    );
}

#[test]
fn key_status_and_integrity_answers() {
    assert_eq!(get_encryption_key_status(), "encryption_enabled:true,version:1");
    assert_eq!(rotate_encryption_key(), "key_rotation_initiated");
}

#[test]
fn setup_runs_once_with_a_long_enough_password() {
    assert_eq!(check_setup(true, "long enough"), Err("setup has already run".to_string()));
    assert_eq!(
        check_setup(false, "short"),
        Err("password must be at least 8 characters".to_string())
    );
    assert_eq!(check_setup(false, "12345678"), Ok(()));
    assert!(check_setup_status(false).needs_setup);
    assert!(!check_setup_status(true).needs_setup);
    let s = session_status(true, false);
    assert!(!s.needs_setup && !s.is_locked);
    let _ = SetupResult { recovery_key: "k".to_string() };
}

#[test]
fn unlock_decisions() {
    let locked = initial_access();
    let ok = decide_unlock(locked, UnlockAttempt::Opened { owner: Some("owner".to_string()) });
    assert!(ok.next.database_open);
    assert_eq!(ok.record, AttemptRecord::Success);
    assert_eq!(ok.result.unwrap().username, "owner");
    let wrong = decide_unlock(locked, UnlockAttempt::WrongPassword);
    assert!(!wrong.next.database_open);
    assert_eq!(wrong.record, AttemptRecord::Failure);
    assert_eq!(wrong.result.unwrap_err(), "incorrect password");
    let orphan = decide_unlock(locked, UnlockAttempt::Opened { owner: None });
    assert_eq!(orphan.result.unwrap_err(), "no account found in this database");
    assert_eq!(orphan.record, AttemptRecord::Nothing);
    let failed = decide_unlock(locked, UnlockAttempt::Failed("disk error".to_string()));
    assert_eq!(failed.result.unwrap_err(), "disk error");
}

#[test]
fn access_gate_follows_lock_unlock_and_admin_pin() {
    let start = initial_access();
    assert_eq!(start, AccessState { database_open: false, admin_elevated: false });
    assert_eq!(data_access(start, false).granted, Err(AccessDenied::Locked));

    let open = unlock(start);
    let step = data_access(open, false);
    assert_eq!(step.granted, Ok(()));
    assert!(step.touch_session);
    assert_eq!(admin_access(open, false).granted, Err(AccessDenied::AdminNotUnlocked));

    let admin = elevate_admin(open);
    assert_eq!(admin_access(admin, false).granted, Ok(()));
    assert_eq!(admin_access(exit_admin(admin), false).granted, Err(AccessDenied::AdminNotUnlocked));

    // Idle timeout closes the database but is not an explicit lock.
    let idle = data_access(admin, true);
    assert_eq!(idle.granted, Err(AccessDenied::Locked));
    assert!(!idle.next.database_open);
    assert!(!idle.touch_session);

    // Locking drops Admin access; re-entering the password does not restore it.
    let relocked = lock(admin);
    assert_eq!(data_access(relocked, false).granted, Err(AccessDenied::Locked));
    assert_eq!(admin_access(unlock(relocked), false).granted, Err(AccessDenied::AdminNotUnlocked));
    assert_eq!(AccessDenied::Locked.message(), "the app is locked");
    assert_eq!(AccessDenied::AdminNotUnlocked.message(), "Admin access has not been unlocked");
}

#[test]
fn top_n_orders_by_count_then_label_and_truncates() {
    let rows = vec![counted("b", 2), counted("a", 2), counted("c", 5), counted("d", 1)];
    let top = top_n(rows, 3);
    assert_eq!(top, vec![counted("c", 5), counted("a", 2), counted("b", 2)]);
    assert!(top_n(vec![], 8).is_empty());
}

#[test]
fn label_tallies_skip_missing_labels() {
    let labels = vec![Some("x".to_string()), None, Some("y".to_string()), Some("x".to_string())];
    let mut tally = tally_labels(&labels);
    tally.sort_by(|a, b| a.label.cmp(&b.label));
    assert_eq!(tally, vec![counted("x", 2), counted("y", 1)]);
    assert_eq!(top_labels(&labels, 1), vec![counted("x", 2)]);
}

#[test]
fn audit_tallies_count_levels_statuses_and_resolution() {
    let assessments = vec![
        assessed(RiskLevel::High, Some("Fire"), Some("Ops")),
        assessed(RiskLevel::High, Some("Fire"), None),
        assessed(RiskLevel::Low, Some("Electrical"), Some("Ops")),
    ];
    let statuses = vec![Stage3MatchStatus::Matched, Stage3MatchStatus::Escalated, Stage3MatchStatus::Written];
    let t = tally_audit(4, &assessments, &statuses);
    assert_eq!(t.total_observations, 4);
    assert_eq!(t.assessed_count, 3);
    assert_eq!(t.risk_levels, RiskLevelCounts { low: 1, medium: 0, high: 2, critical: 0 });
    assert_eq!(t.top_categories, vec![counted("Fire", 2), counted("Electrical", 1)]);
    assert_eq!(t.top_departments, vec![counted("Ops", 2)]);
    assert_eq!(t.stage3_status, Stage3StatusCounts { matched: 1, written: 1, escalated: 1 });
    assert_eq!(t.resolved, 2);
    assert_eq!(count_risk_levels(&vec![]), RiskLevelCounts { low: 0, medium: 0, high: 0, critical: 0 });
    assert_eq!(count_stage3_statuses(&statuses).matched, 1);
}

#[test]
fn recommendation_texts_keep_id_and_text_in_order() {
    let rows = vec![
        RecommendationBankEntry {
            id: "r1".to_string(),
            observation_bank_id: Some("o1".to_string()),
            topic: "Fire".to_string(),
            text: "Replace the extinguisher immediately.".to_string(),
            version: 1,
        },
        RecommendationBankEntry {
            id: "r2".to_string(),
            observation_bank_id: None,
            topic: "General".to_string(),
            text: "General housekeeping recommendation.".to_string(),
            version: 2,
        },
    ];
    let texts = recommendation_texts(&rows);
    assert_eq!(texts.len(), 2);
    assert_eq!((texts[0].id.as_str(), texts[0].text.as_str()), ("r1", "Replace the extinguisher immediately."));
    assert_eq!(texts[1].id, "r2");
}

#[test]
fn commit_publish_input_carries_the_bank_row() {
    let input = CommitPublishInput {
        pending_id: 4,
        bank_key: "fire_extinguisher".to_string(),
        topic: "Fire Protection".to_string(),
        label: "Missing gauge".to_string(),
    };
    assert_eq!(input.clone(), input);
}

#[test]
fn suggest_respects_bank_key_scoping() {
    let all = vec!["fire_extinguisher".to_string(), "sprinkler".to_string()];
    assert_eq!(search_scope(vec!["fire_extinguisher".to_string()], all.clone()), vec!["fire_extinguisher"]);
    assert_eq!(search_scope(vec![], all.clone()), all);
}

#[test]
fn suggest_falls_back_to_fuzzy_when_no_keyword_overlap() {
    let rows = vec!["r1".to_string(), "r2".to_string(), "r3".to_string()];
    assert_eq!(rows_to_score(&rows, &vec![]), vec![true, true, true]);
    assert_eq!(rows_to_score(&rows, &vec!["r2".to_string()]), vec![false, true, false]);
}

#[test]
fn suggest_attaches_linked_recommendations() {
    let rows = vec![RecommendationBankEntry {
        id: "rec-1".to_string(),
        observation_bank_id: Some("obs-1".to_string()),
        topic: "Fire Protection".to_string(),
        text: "Replace the extinguisher immediately.".to_string(),
        version: 1,
    }];
    let texts = recommendation_texts(&rows);
    assert_eq!(texts.len(), 1);
    assert_eq!(texts[0].text, "Replace the extinguisher immediately.");
}

fn logged(id: &str, action: &str) -> aditup::desktop::security::AuditLogInfo {
    let (kind, outcome) = read_audit_event(&audit_event("auth", "success")).unwrap();
    let mut input = audit_event("auth", "success");
    input.action = action.to_string();
    audit_log_info(id.to_string(), "2026-07-04T10:00:00Z".to_string(), kind, outcome, input)
}

#[test]
fn audit_trail_entries_chain_and_verify() {
    let first = record_audit_event(None, logged("e1", "login"));
    assert_eq!(first.previous_hash, "");
    assert_eq!(first.hash.len(), 64);
    assert_eq!(first.hash, compute_trail_hash("", &first.info));
    let second = record_audit_event(Some(&first.hash), logged("e2", "export"));
    assert_eq!(second.previous_hash, first.hash);
    let log = vec![first.clone(), second.clone()];
    assert!(verify_audit_integrity(&first.hash, &log));
    assert!(verify_audit_integrity(&second.hash, &log));
    assert!(!verify_audit_integrity("not-a-hash", &log));
    assert!(!verify_audit_integrity("", &log));
    assert!(!verify_audit_integrity(&first.hash, &vec![]));
}

#[test]
fn tampering_with_the_trail_breaks_the_chain() {
    let first = record_audit_event(None, logged("e1", "login"));
    let second = record_audit_event(Some(&first.hash), logged("e2", "export"));
    let mut altered = first.clone();
    altered.info.action = "logout".to_string();
    let log = vec![altered, second.clone()];
    assert!(!verify_audit_integrity(&first.hash, &log));
    assert!(!verify_audit_integrity(&second.hash, &log));
    // An entry that does not point back to its predecessor breaks it too.
    let detached = record_audit_event(None, logged("e2", "export"));
    assert!(!verify_audit_integrity(&detached.hash, &vec![first.clone(), detached.clone()]));
    assert!(verify_audit_integrity(&first.hash, &vec![first.clone(), detached]));
}
