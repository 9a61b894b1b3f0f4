//! Audits and their Stage 1 → 2 → 3 → finalized workflow.
use vstd::prelude::*;

use crate::db::error::DbError;
use crate::text::str_eq;

verus! {

/// Where an audit stands in its workflow.
#[derive(Debug, Clone, Copy, PartialEq, Eq, Structural)]
pub enum AuditStatus {
    Draft,
    Stage2,
    Stage3,
    Finalized,
}

impl AuditStatus {
    pub open spec fn sql_text(self) -> Seq<char> {
        match self {
            AuditStatus::Draft => "draft"@,
            AuditStatus::Stage2 => "stage2"@,
            AuditStatus::Stage3 => "stage3"@,
            AuditStatus::Finalized => "finalized"@,
        }
    }

    pub open spec fn parse_sql(value: Seq<char>) -> Option<AuditStatus> {
        if value == "draft"@ {
            Some(AuditStatus::Draft)
        } else if value == "stage2"@ {
            Some(AuditStatus::Stage2)
        } else if value == "stage3"@ {
            Some(AuditStatus::Stage3)
        } else if value == "finalized"@ {
            Some(AuditStatus::Finalized)
        } else {
            None
        }
    }

    pub fn as_sql(self) -> (s: &'static str)
        ensures
            s@ == self.sql_text(),
    {
        match self {
            AuditStatus::Draft => "draft",
            AuditStatus::Stage2 => "stage2",
            AuditStatus::Stage3 => "stage3",
            AuditStatus::Finalized => "finalized",
        }
    }

    pub fn from_sql(value: &str) -> (r: Option<AuditStatus>)
        ensures
            r == AuditStatus::parse_sql(value@),
    {
        if str_eq(value, "draft") {
            Some(AuditStatus::Draft)
        } else if str_eq(value, "stage2") {
            Some(AuditStatus::Stage2)
        } else if str_eq(value, "stage3") {
            Some(AuditStatus::Stage3)
        } else if str_eq(value, "finalized") {
            Some(AuditStatus::Finalized)
        } else {
            None
        }
    }

    /// Position in the workflow: 0 for a draft up to 3 once finalized.
    pub open spec fn stage_index(self) -> nat {
        match self {
            AuditStatus::Draft => 0,
            AuditStatus::Stage2 => 1,
            AuditStatus::Stage3 => 2,
            AuditStatus::Finalized => 3,
        }
    }

    /// The status one step forward; a finalized audit stays finalized.
    pub open spec fn next(self) -> AuditStatus {
        match self {
            AuditStatus::Draft => AuditStatus::Stage2,
            AuditStatus::Stage2 => AuditStatus::Stage3,
            AuditStatus::Stage3 => AuditStatus::Finalized,
            AuditStatus::Finalized => AuditStatus::Finalized,
        }
    }

    /// The status one step forward; there is no way to skip a stage or go
    /// back.
    pub fn advanced(self) -> (r: AuditStatus)
        ensures
            r == self.next(),
    {
        match self {
            AuditStatus::Draft => AuditStatus::Stage2,
            AuditStatus::Stage2 => AuditStatus::Stage3,
            AuditStatus::Stage3 => AuditStatus::Finalized,
            AuditStatus::Finalized => AuditStatus::Finalized,
        }
    }
}

/// Reading back the stored text of a status gives that status.
pub proof fn lemma_audit_status_sql_round_trip(status: AuditStatus)
    ensures
        AuditStatus::parse_sql(status.sql_text()) == Some(status),
{
    reveal_strlit("draft");
    reveal_strlit("stage2");
    reveal_strlit("stage3");
    reveal_strlit("finalized");
    assert("draft"@.len() == 5);
    assert("stage2"@[5] == '2');
    assert("stage3"@[5] == '3');
    assert("stage2"@.len() == 6);
    assert("finalized"@.len() == 9);
}

/// Advancing moves exactly one stage forward until finalized, never back and
/// never past a stage; a finalized audit is left as it is.
pub proof fn lemma_advance_moves_one_stage(status: AuditStatus)
    ensures
        status != AuditStatus::Finalized ==> status.next().stage_index() == status.stage_index()
            + 1,
        status == AuditStatus::Finalized ==> status.next() == status,
        status.next().stage_index() >= status.stage_index(),
{
}

/// Three advances take a new audit from draft to finalized, through Stage 2
/// and Stage 3.
pub proof fn lemma_draft_reaches_finalized_in_three_steps()
    ensures
        AuditStatus::Draft.next() == AuditStatus::Stage2,
        AuditStatus::Draft.next().next() == AuditStatus::Stage3,
        AuditStatus::Draft.next().next().next() == AuditStatus::Finalized,
{
}

/// One audit of a site by an auditor.
#[derive(Debug, Clone, PartialEq)]
pub struct Audit {
    pub id: String,
    pub site_id: String,
    pub auditor_user_id: String,
    pub audit_date: String,
    pub status: AuditStatus,
    pub scope_notes: Option<String>,
}

/// The status an advance request writes for the audit as currently stored,
/// or `NotFound` when there is no such audit.
pub fn plan_advance(current: Option<&Audit>) -> (r: Result<AuditStatus, DbError>)
    ensures
        match current {
            Some(a) => r == Ok::<AuditStatus, DbError>(a.status.next()),
            None => r matches Err(DbError::NotFound),
        },
{
    match current {
        Some(a) => Ok(a.status.advanced()),
        None => Err(DbError::NotFound),
    }
}

/// The status a newly created audit starts in.
pub fn initial_status() -> (r: AuditStatus)
    ensures
        r == AuditStatus::Draft,
{
    AuditStatus::Draft
}

} // verus!
