//! Failure modes of the learning engine.
use vstd::prelude::*;

use crate::db::error::DbError;

verus! {

#[derive(Debug)]
pub enum KleError {
    Db(DbError),
    Serialization(serde_json::Error),
    /// The pending observation is not awaiting resolution.
    NotPending(i64),
    /// The pending observation must be approved before it is published.
    NotApproved(i64),
}

} // verus!
