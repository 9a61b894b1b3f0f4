//! The backup commands' side: what they are asked, how a backup file is
//! named, and the checks made on a backup before it is trusted.
use vstd::prelude::*;
use vstd::string::StringExecFns;

use crate::backup::backup::{integrity_hash, BackupEngine};

verus! {

/// A request for a new backup.
#[derive(Debug, Clone, PartialEq)]
pub struct BackupInput {
    pub description: Option<String>,
}

/// A request to restore the backup at a path.
#[derive(Debug, Clone, PartialEq)]
pub struct RestoreInput {
    pub backup_path: String,
}

/// The file name of a backup taken at a timestamp (`%Y%m%d-%H%M%S`).
pub fn backup_file_name(timestamp: &str) -> (r: String)
    ensures
        r@ == "aditup-backup-"@ + timestamp@ + ".backup"@,
{
    String::from_str("aditup-backup-").concat(timestamp).concat(".backup")
}

/// The check made on a backup file before it is trusted: it must exist, must
/// not be empty, and its bytes must hash to the hash its manifest recorded
/// when the backup was taken. Unless the recorded hash is the hash of no
/// bytes at all, the check passes exactly when the file exists and its bytes
/// hash to that hash.
pub fn check_backup_file(backup_path: &str, exists: bool, data: &[u8], expected_hash: &str) -> (r:
    Result<(), String>)
    ensures
        !exists ==> (r matches Err(m) && m@ == "Backup not found: "@ + backup_path@),
        exists && data@.len() == 0 ==> (r matches Err(m) && m@ == "Backup file is empty"@),
        exists && data@.len() > 0 ==> (r is Ok <==> integrity_hash(data@) == expected_hash@),
        exists && expected_hash@ != integrity_hash(Seq::empty()) ==> (r is Ok <==> integrity_hash(
            data@,
        ) == expected_hash@),
        exists && data@.len() > 0 && integrity_hash(data@) != expected_hash@ ==> (r matches Err(m)
            && m@ == "Integrity check failed: expected "@ + expected_hash@ + ", got "@
            + integrity_hash(data@)),
{
    if !exists {
        return Err(String::from_str("Backup not found: ").concat(backup_path));
    }
    if data.len() == 0 {
        assert(data@ =~= Seq::<u8>::empty());
        return Err(String::from_str("Backup file is empty"));
    }
    match BackupEngine::verify_backup(data, expected_hash) {
        Ok(()) => Ok(()),
        Err(e) => Err(e.message()),
    }
}

/// The answer to a completed restore.
pub fn restore_message(backup_path: &str) -> (r: String)
    ensures
        r@ == "Database restored from "@ + backup_path@,
{
    String::from_str("Database restored from ").concat(backup_path)
}

} // verus!
