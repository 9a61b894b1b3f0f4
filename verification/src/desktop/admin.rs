//! The Admin Console's requests.
use vstd::prelude::*;

verus! {

/// A request to publish an approved pending observation into the bank.
#[derive(Debug, Clone, PartialEq)]
pub struct CommitPublishInput {
    pub pending_id: i64,
    pub bank_key: String,
    pub topic: String,
    pub label: String,
}

} // verus!
