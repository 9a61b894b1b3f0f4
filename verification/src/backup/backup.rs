//! Building and checking snapshots.
use vstd::prelude::*;
use vstd::string::StringExecFns;

use crate::backup::compress::{encode_all, zstd_decoded, zstd_frame};
use crate::backup::error::{BackupError, BackupResult};
use crate::backup::manifest::BackupManifest;
use crate::digest::{hex_encode, lower_hex, sha256, sha256_digest};

verus! {

/// Builds and checks database snapshots.
pub struct BackupEngine;

/// A finished snapshot: the bytes to store and their manifest.
pub struct BackupArtifact {
    pub compressed: Vec<u8>,
    pub manifest: BackupManifest,
}

/// The integrity hash recorded for stored bytes: lower-case hex SHA-256.
pub open spec fn integrity_hash(stored: Seq<u8>) -> Seq<char> {
    lower_hex(sha256_digest(stored))
}

/// The zstd level snapshots are compressed at (zstd's default).
pub const COMPRESSION_LEVEL: i32 = 0;

impl BackupEngine {
    /// Snapshots the database file's bytes, which always succeeds: compresses
    /// them, hashes the compressed bytes, and describes the result in a
    /// manifest (format
    /// version "1.0", database version 1, record counts left at 0 for the
    /// caller to fill in). The snapshot restores to exactly `db_data` and
    /// passes `verify_backup` against its own manifest hash.
    pub fn create_backup(db_data: &[u8], description: Option<String>) -> (r: BackupResult<
        BackupArtifact,
    >)
        ensures
            r matches Ok(a) ==> {
                &&& a.compressed@ == zstd_frame(db_data@, COMPRESSION_LEVEL)
                &&& zstd_decoded(a.compressed@) == Some(db_data@)
                &&& a.manifest.sha256_hash@ == integrity_hash(a.compressed@)
                &&& a.manifest.version@ == "1.0"@
                &&& a.manifest.database_version == 1
                &&& a.manifest.file_size == db_data@.len()
                &&& a.manifest.compressed_size == a.compressed@.len()
                &&& a.manifest.audit_count == 0
                &&& a.manifest.observation_count == 0
                &&& a.manifest.description == description
            },
            r is Ok,
    {
        let original_size = db_data.len() as u64;
        let compressed = match encode_all(db_data, COMPRESSION_LEVEL) {
            Ok(c) => c,
            Err(e) => return Err(BackupError::CompressionError(e)),
        };
        let compressed_size = compressed.len() as u64;
        let hash = hex_encode(sha256(compressed.as_slice()).as_slice());
        let manifest = BackupManifest::new(
            String::from_str("1.0"),
            1,
            original_size,
            compressed_size,
            hash,
            0,
            0,
        );
        let manifest = match description {
            Some(desc) => manifest.with_description(desc),
            None => manifest,
        };
        Ok(BackupArtifact { compressed, manifest })
    }

    /// Checks stored snapshot bytes against the hash their manifest records.
    pub fn verify_backup(data: &[u8], expected_hash: &str) -> (r: BackupResult<()>)
        ensures
            r is Ok <==> integrity_hash(data@) == expected_hash@,
            r matches Err(e) ==> e matches BackupError::IntegrityCheckFailed { expected, actual }
                && expected@ == expected_hash@ && actual@ == integrity_hash(data@),
    {
        BackupEngine::check_integrity(hex_encode(sha256(data).as_slice()), expected_hash)
    }

    /// Compares the hash computed for a snapshot with the one its manifest
    /// records; a mismatch reports both.
    pub fn check_integrity(actual_hash: String, expected_hash: &str) -> (r: BackupResult<()>)
        ensures
            r is Ok <==> actual_hash@ == expected_hash@,
            r matches Err(e) ==> e matches BackupError::IntegrityCheckFailed { expected, actual }
                && expected@ == expected_hash@ && actual@ == actual_hash@,
    {
        let expected = String::from_str(expected_hash);
        if actual_hash != expected {
            return Err(BackupError::IntegrityCheckFailed { expected, actual: actual_hash });
        }
        Ok(())
    }
}

} // verus!
