//! The description that accompanies a snapshot.
use vstd::prelude::*;

verus! {

/// `uuid::Uuid`, carried through opaquely.
#[verifier::external_type_specification]
#[verifier::external_body]
pub struct ExUuid(uuid::Uuid);

/// A UTC time stamp (`chrono::DateTime<Utc>`), held opaquely: Verus does not
/// accept a declaration of `chrono::DateTime` itself, whose parameter is
/// bound by an outside trait.
#[verifier::external_body]
pub struct Timestamp(pub chrono::DateTime<chrono::Utc>);

/// Calls `uuid::Uuid::new_v4`: a random identifier, about which nothing is
/// claimed.
#[verifier::external_body]
fn random_id() -> uuid::Uuid {
    uuid::Uuid::new_v4()
}

/// Calls `chrono::Utc::now`: the current time, about which nothing is claimed.
#[verifier::external_body]
fn now_utc() -> Timestamp {
    Timestamp(chrono::Utc::now())
}

/// What is known about one snapshot: sizes, integrity hash, optional
/// description and the record counts the caller supplies.
pub struct BackupManifest {
    pub id: uuid::Uuid,
    pub version: String,
    pub timestamp: Timestamp,
    pub database_version: i32,
    pub file_size: u64,
    pub compressed_size: u64,
    pub sha256_hash: String,
    pub description: Option<String>,
    pub audit_count: u32,
    pub observation_count: u32,
}

impl BackupManifest {
    /// A manifest with a fresh random id, stamped with the current time, and
    /// no description.
    pub fn new(
        version: String,
        database_version: i32,
        file_size: u64,
        compressed_size: u64,
        sha256_hash: String,
        audit_count: u32,
        observation_count: u32,
    ) -> (r: BackupManifest)
        ensures
            r.version == version,
            r.database_version == database_version,
            r.file_size == file_size,
            r.compressed_size == compressed_size,
            r.sha256_hash == sha256_hash,
            r.description is None,
            r.audit_count == audit_count,
            r.observation_count == observation_count,
    {
        BackupManifest {
            id: random_id(),
            version,
            timestamp: now_utc(),
            database_version,
            file_size,
            compressed_size,
            sha256_hash,
            description: None,
            audit_count,
            observation_count,
        }
    }

    /// The same manifest, described.
    pub fn with_description(self, description: String) -> (r: BackupManifest)
        ensures
            r == (BackupManifest { description: Some(description), ..self }),
    {
        BackupManifest { description: Some(description), ..self }
    }
}

} // verus!
