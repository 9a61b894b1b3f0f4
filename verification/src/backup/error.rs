//! Failure modes of backup and restore.
use vstd::prelude::*;
use vstd::string::StringExecFns;

verus! {

#[derive(Debug, Clone, PartialEq)]
pub enum BackupError {
    Database(String),
    IoError(String),
    CorruptedBackup(String),
    CompressionError(String),
    InvalidManifest(String),
    RestoreFailed(String),
    IntegrityCheckFailed { expected: String, actual: String },
    BackupNotFound(String),
}

/// The message a backup error is shown with.
pub open spec fn backup_error_text(e: BackupError) -> Seq<char> {
    match e {
        BackupError::Database(s) => "Database error: "@ + s@,
        BackupError::IoError(s) => "IO error: "@ + s@,
        BackupError::CorruptedBackup(s) => "Backup corrupted: "@ + s@,
        BackupError::CompressionError(s) => "Compression error: "@ + s@,
        BackupError::InvalidManifest(s) => "Invalid backup manifest: "@ + s@,
        BackupError::RestoreFailed(s) => "Restore failed: "@ + s@,
        BackupError::IntegrityCheckFailed { expected, actual } => "Integrity check failed: expected "@
            + expected@ + ", got "@ + actual@,
        BackupError::BackupNotFound(s) => "Backup path not found: "@ + s@,
    }
}

impl BackupError {
    /// The message this error is shown with.
    pub fn message(&self) -> (r: String)
        ensures
            r@ == backup_error_text(*self),
    {
        match self {
            BackupError::Database(s) => String::from_str("Database error: ").concat(s.as_str()),
            BackupError::IoError(s) => String::from_str("IO error: ").concat(s.as_str()),
            BackupError::CorruptedBackup(s) => String::from_str("Backup corrupted: ").concat(
                s.as_str(),
            ),
            BackupError::CompressionError(s) => String::from_str("Compression error: ").concat(
                s.as_str(),
            ),
            BackupError::InvalidManifest(s) => String::from_str(
                "Invalid backup manifest: ",
            ).concat(s.as_str()),
            BackupError::RestoreFailed(s) => String::from_str("Restore failed: ").concat(
                s.as_str(),
            ),
            BackupError::IntegrityCheckFailed { expected, actual } => String::from_str(
                "Integrity check failed: expected ",
            ).concat(expected.as_str()).concat(", got ").concat(actual.as_str()),
            BackupError::BackupNotFound(s) => String::from_str("Backup path not found: ").concat(
                s.as_str(),
            ),
        }
    }
}

/// The result type of backup and restore operations.
pub type BackupResult<T> = Result<T, BackupError>;

} // verus!
