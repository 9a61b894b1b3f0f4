//! Failure modes of the storage layer.
use vstd::prelude::*;

verus! {

/// `rusqlite`'s error, carried through opaquely.
#[verifier::external_type_specification]
#[verifier::external_body]
pub struct ExSqliteError(rusqlite::Error);

/// `serde_json`'s error, carried through opaquely.
#[verifier::external_type_specification]
#[verifier::external_body]
pub struct ExJsonError(serde_json::Error);

/// All failure modes the storage layer can produce. Callers match on this
/// instead of the raw driver error, so the outer layers can decide what is
/// safe to show the user.
#[derive(Debug)]
pub enum DbError {
    /// The database key was rejected: a wrong password or a corrupted file.
    InvalidKey,
    /// The record asked for does not exist.
    NotFound,
    /// An argument failed validation before anything was written.
    InvalidInput(String),
    /// A schema migration failed.
    Migration { version: i64, name: &'static str, source: rusqlite::Error },
    /// Any other SQLite failure.
    Sqlite(rusqlite::Error),
    /// A JSON column could not be read or written.
    Serialization(serde_json::Error),
}

impl DbError {
    /// The error is `InvalidInput` with exactly this message.
    pub open spec fn is_invalid_input_with(&self, message: Seq<char>) -> bool {
        match self {
            DbError::InvalidInput(m) => m@ == message,
            _ => false,
        }
    }
}

} // verus!
