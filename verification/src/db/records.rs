//! Plain records of the projects, sites, users and the published banks.
use vstd::prelude::*;

use crate::db::error::DbError;
use crate::db::terms::{is_blank, trimmed};
use crate::text::str_eq;
use vstd::string::StringExecFns;

verus! {

/// An audit project, optionally for a client.
#[derive(Debug, Clone, PartialEq)]
pub struct Project {
    pub id: String,
    pub name: String,
    pub client: Option<String>,
    pub created_at: String,
    pub archived_at: Option<String>,
}

/// A site of a project.
#[derive(Debug, Clone, PartialEq)]
pub struct Site {
    pub id: String,
    pub project_id: String,
    pub name: String,
    pub location: Option<String>,
}

/// Role of an account.
#[derive(Debug, Clone, Copy, PartialEq, Eq, Structural)]
pub enum UserRole {
    Auditor,
    Admin,
}

impl UserRole {
    pub open spec fn sql_text(self) -> Seq<char> {
        match self {
            UserRole::Auditor => "auditor"@,
            UserRole::Admin => "admin"@,
        }
    }

    pub open spec fn parse_sql(value: Seq<char>) -> Option<UserRole> {
        if value == "auditor"@ {
            Some(UserRole::Auditor)
        } else if value == "admin"@ {
            Some(UserRole::Admin)
        } else {
            None
        }
    }

    pub fn as_sql(self) -> (s: &'static str)
        ensures
            s@ == self.sql_text(),
    {
        match self {
            UserRole::Auditor => "auditor",
            UserRole::Admin => "admin",
        }
    }

    pub fn from_sql(value: &str) -> (r: Option<UserRole>)
        ensures
            r == UserRole::parse_sql(value@),
    {
        if str_eq(value, "auditor") {
            Some(UserRole::Auditor)
        } else if str_eq(value, "admin") {
            Some(UserRole::Admin)
        } else {
            None
        }
    }
}

/// Reading back the stored text of a role gives that role.
pub proof fn lemma_user_role_sql_round_trip(role: UserRole)
    ensures
        UserRole::parse_sql(role.sql_text()) == Some(role),
{
    reveal_strlit("auditor");
    reveal_strlit("admin");
    assert("auditor"@.len() == 7);
    assert("admin"@.len() == 5);
}

/// An account. The password hash is an opaque PHC string produced elsewhere.
#[derive(Debug, Clone, PartialEq)]
pub struct User {
    pub id: String,
    pub username: String,
    pub password_hash: String,
    pub role: UserRole,
    pub created_at: String,
}

/// A clause of a legal standard.
#[derive(Debug, Clone, PartialEq)]
pub struct LegalBankEntry {
    pub id: String,
    pub standard: String,
    pub clause: String,
    pub text: String,
    /// This row's own edit count.
    pub version: i64,
}

/// Checks a legal clause about to be created: neither the standard nor the
/// clause may be blank.
pub fn check_legal_clause(standard: &str, clause: &str) -> (r: Result<(), DbError>)
    ensures
        r is Ok <==> trimmed(standard@).len() > 0 && trimmed(clause@).len() > 0,
        r matches Err(e) ==> e.is_invalid_input_with("standard and clause must not be empty"@),
{
    if is_blank(standard) || is_blank(clause) {
        return Err(DbError::InvalidInput(String::from_str("standard and clause must not be empty")));
    }
    Ok(())
}

/// A published observation of a bank.
#[derive(Debug, Clone, PartialEq)]
pub struct ObservationBankEntry {
    pub id: String,
    pub bank_key: String,
    pub topic: String,
    pub label: String,
    pub text: String,
    /// This row's own edit count, independent of its bank's version.
    pub version: i64,
}

/// Checks the bank an observation is about to be published under: its key
/// may not be blank.
pub fn check_bank_key(bank_key: &str) -> (r: Result<(), DbError>)
    ensures
        r is Ok <==> trimmed(bank_key@).len() > 0,
        r matches Err(e) ==> e.is_invalid_input_with("bank_key must not be empty"@),
{
    if is_blank(bank_key) {
        return Err(DbError::InvalidInput(String::from_str("bank_key must not be empty")));
    }
    Ok(())
}

/// A recommendation, optionally linked to a published observation.
#[derive(Debug, Clone, PartialEq)]
pub struct RecommendationBankEntry {
    pub id: String,
    pub observation_bank_id: Option<String>,
    pub topic: String,
    pub text: String,
    pub version: i64,
}

/// The published version of a bank.
#[derive(Debug, Clone, PartialEq)]
pub struct BankVersion {
    pub bank_key: String,
    pub current_version: i64,
    pub published_at: Option<String>,
}

/// The version a bank has after one more write to its published content:
/// 1 for a bank never published before, otherwise one more than before.
pub fn bumped_version(current: Option<i64>) -> (r: i64)
    requires
        current matches Some(v) ==> v < i64::MAX,
    ensures
        match current {
            Some(v) => r == v + 1,
            None => r == 1,
        },
{
    match current {
        Some(v) => v + 1,
        None => 1,
    }
}

/// The version a row has after one more edit of its text.
pub fn edited_row_version(version: i64) -> (r: i64)
    requires
        version < i64::MAX,
    ensures
        r == version + 1,
{
    version + 1
}

/// Bank versions count writes: a bank written `k` times since it was first
/// published is at version `k`.
pub open spec fn version_after(writes: nat) -> Option<int>
    decreases writes,
{
    if writes == 0 {
        None
    } else {
        match version_after((writes - 1) as nat) {
            Some(v) => Some(v + 1),
            None => Some(1),
        }
    }
}

pub proof fn lemma_version_counts_writes(writes: nat)
    ensures
        writes > 0 ==> version_after(writes) == Some(writes as int),
        writes == 0 ==> version_after(writes) is None,
    decreases writes,
{
    if writes > 0 {
        lemma_version_counts_writes((writes - 1) as nat);
    }
}

} // verus!
