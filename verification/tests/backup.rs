use aditup::backup::backup::{BackupEngine, COMPRESSION_LEVEL};
use aditup::backup::error::BackupError;
use aditup::backup::manifest::BackupManifest;
use aditup::backup::restore::{is_backup_file_name, BackupDirEntry, RestoreEngine};
use aditup::desktop::backup::{backup_file_name, check_backup_file, restore_message, BackupInput, RestoreInput};

fn entry(name: &str, is_file: bool, size: u64) -> BackupDirEntry {
    BackupDirEntry { name: name.to_string(), name_is_utf8: true, is_file, size }
}

#[test]
fn backup_engine_exists() {
    let _ = BackupEngine;
}

#[test]
fn restore_engine_exists() {
    let _ = RestoreEngine;
}

#[test]
fn manifest_can_be_created() {
    let manifest = BackupManifest::new("1.0".to_string(), 1, 1024, 512, "abc123".to_string(), 5, 10);

    assert_eq!(manifest.version, "1.0");
    assert_eq!(manifest.database_version, 1);
    assert_eq!(manifest.file_size, 1024);
    assert_eq!(manifest.compressed_size, 512);
    assert_eq!(manifest.audit_count, 5);
    assert_eq!(manifest.observation_count, 10);
}

#[test]
fn manifest_with_description() {
    let manifest = BackupManifest::new("1.0".to_string(), 1, 1024, 512, "abc123".to_string(), 0, 0)
        .with_description("Test backup".to_string());

    assert_eq!(manifest.description, Some("Test backup".to_string()));
}

#[test]
fn backup_round_trips_through_restore_and_verifies() {
    let data: Vec<u8> = (0..4096u32).map(|i| (i % 251) as u8).collect();
    let artifact = BackupEngine::create_backup(&data, Some("nightly".to_string())).unwrap();
    assert_eq!(artifact.manifest.file_size, 4096);
    assert_eq!(artifact.manifest.compressed_size, artifact.compressed.len() as u64);
    assert_eq!(artifact.manifest.description, Some("nightly".to_string()));
    assert_eq!(artifact.manifest.version, "1.0");
    assert_eq!(artifact.manifest.sha256_hash.len(), 64);
    assert!(BackupEngine::verify_backup(&artifact.compressed, &artifact.manifest.sha256_hash).is_ok());
    let restored = RestoreEngine::restore_backup(&artifact.compressed).unwrap();
    assert_eq!(restored, data);
    assert_eq!(COMPRESSION_LEVEL, 0);
}

#[test]
fn verify_backup_reports_both_hashes_on_mismatch() {
    let artifact = BackupEngine::create_backup(b"database bytes", None).unwrap();
    let mut tampered = artifact.compressed.clone();
    let last = tampered.len() - 1;
    tampered[last] ^= 0xff;
    match BackupEngine::verify_backup(&tampered, &artifact.manifest.sha256_hash) {
        Err(BackupError::IntegrityCheckFailed { expected, actual }) => {
            assert_eq!(expected, artifact.manifest.sha256_hash);
            assert_ne!(actual, expected);
        },
        other => panic!("expected an integrity failure, got {other:?}"),
    }
    // SHA-256 of the empty input.
    match BackupEngine::verify_backup(b"", "x") {
        Err(BackupError::IntegrityCheckFailed { actual, .. }) => assert_eq!(
            actual,
            "e3b0c44298fc1c149afbf4c8996fb92427ae41e4649b934ca495991b7852b855"
        ),
        other => panic!("expected an integrity failure, got {other:?}"),
    }
}

#[test]
fn restoring_garbage_is_a_compression_error() {
    match RestoreEngine::restore_backup(b"not a zstd frame") {
        Err(BackupError::CompressionError(m)) => assert!(m.starts_with("Failed to decompress: ")),
        other => panic!("expected a compression error, got {other:?}"),
    }
}

#[test]
fn list_backups_keeps_backup_files_newest_name_first() {
    let entries = vec![
        entry("aditup-backup-20260101-000000.backup", true, 10),
        entry("notes.txt", true, 5),
        entry("aditup-backup-20260301-000000.backup", true, 30),
        entry("old.backup", false, 0),
        entry(".backup", true, 1),
        entry("aditup-backup-20260201-000000.backup", true, 20),
    ];
    let listed = RestoreEngine::list_backups(&entries);
    assert_eq!(
        listed,
        vec![
            ("aditup-backup-20260301-000000.backup".to_string(), 30),
            ("aditup-backup-20260201-000000.backup".to_string(), 20),
            ("aditup-backup-20260101-000000.backup".to_string(), 10),
        ]
    );
    let odd = vec![BackupDirEntry { name: "x\u{fffd}.backup".to_string(), name_is_utf8: false, is_file: true, size: 3 }];
    assert_eq!(RestoreEngine::list_backups(&odd), vec![("unknown".to_string(), 3)]);
}

#[test]
fn backup_extension_is_recognised_like_a_path_extension() {
    assert!(is_backup_file_name("a.backup"));
    assert!(!is_backup_file_name(".backup"));
    assert!(!is_backup_file_name("a.backups"));
    assert!(!is_backup_file_name("backup"));
}

#[test]
fn backup_error_messages() {
    assert_eq!(BackupError::IoError("disk".to_string()).message(), "IO error: disk");
    assert_eq!(
        BackupError::IntegrityCheckFailed { expected: "a".to_string(), actual: "b".to_string() }.message(),
        "Integrity check failed: expected a, got b"
    );
    assert_eq!(BackupError::BackupNotFound("/x".to_string()).message(), "Backup path not found: /x");
}

#[test]
fn backup_commands_name_and_check_files() {
    let _ = BackupInput { description: None };
    let _ = RestoreInput { backup_path: "/b".to_string() };
    assert_eq!(backup_file_name("20260704-101500"), "aditup-backup-20260704-101500.backup");
    let artifact = BackupEngine::create_backup(b"database bytes", None).unwrap();
    let hash = artifact.manifest.sha256_hash.clone();
    assert_eq!(
        check_backup_file("/b/x.backup", false, &[], &hash),
        Err("Backup not found: /b/x.backup".to_string())
    );
    assert_eq!(check_backup_file("/b/x.backup", true, &[], &hash), Err("Backup file is empty".to_string()));
    assert_eq!(check_backup_file("/b/x.backup", true, &artifact.compressed, &hash), Ok(()));
    let mut altered = artifact.compressed.clone();
    altered[0] ^= 1;
    let refused = check_backup_file("/b/x.backup", true, &altered, &hash).unwrap_err();
    assert!(refused.starts_with(&format!("Integrity check failed: expected {hash}, got ")));
    assert_eq!(restore_message("/b/x.backup"), "Database restored from /b/x.backup");
}

#[test]
fn integrity_check_compares_hashes() {
    assert!(BackupEngine::check_integrity("abc".to_string(), "abc").is_ok());
    match BackupEngine::check_integrity("abc".to_string(), "abd") {
        Err(BackupError::IntegrityCheckFailed { expected, actual }) => {
            assert_eq!(expected, "abd");
            assert_eq!(actual, "abc");
        },
        other => panic!("expected an integrity failure, got {other:?}"),
    }
}

#[test]
fn backing_up_an_empty_database_succeeds() {
    let artifact = BackupEngine::create_backup(b"", None).unwrap();
    assert_eq!(artifact.manifest.file_size, 0);
    assert!(!artifact.compressed.is_empty());
    assert_eq!(RestoreEngine::restore_backup(&artifact.compressed).unwrap(), Vec::<u8>::new());
    // An empty file is refused even against the hash of no bytes.
    let empty_hash = "e3b0c44298fc1c149afbf4c8996fb92427ae41e4649b934ca495991b7852b855";
    assert_eq!(check_backup_file("/b/e.backup", true, &[], empty_hash), Err("Backup file is empty".to_string()));
}
