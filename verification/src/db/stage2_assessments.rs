//! Stage 2 risk assessments: one per observation.
use vstd::prelude::*;

use crate::text::str_eq;

verus! {

/// The risk rating an auditor assigns to an observation in Stage 2.
#[derive(Debug, Clone, Copy, PartialEq, Eq, Structural)]
pub enum RiskLevel {
    Low,
    Medium,
    High,
    Critical,
}

impl RiskLevel {
    /// The text stored in the `risk_level` column.
    pub open spec fn sql_text(self) -> Seq<char> {
        match self {
            RiskLevel::Low => "low"@,
            RiskLevel::Medium => "medium"@,
            RiskLevel::High => "high"@,
            RiskLevel::Critical => "critical"@,
        }
    }

    /// The level a stored column text denotes, if any.
    pub open spec fn parse_sql(value: Seq<char>) -> Option<RiskLevel> {
        if value == "low"@ {
            Some(RiskLevel::Low)
        } else if value == "medium"@ {
            Some(RiskLevel::Medium)
        } else if value == "high"@ {
            Some(RiskLevel::High)
        } else if value == "critical"@ {
            Some(RiskLevel::Critical)
        } else {
            None
        }
    }

    pub fn as_sql(self) -> (s: &'static str)
        ensures
            s@ == self.sql_text(),
    {
        match self {
            RiskLevel::Low => "low",
            RiskLevel::Medium => "medium",
            RiskLevel::High => "high",
            RiskLevel::Critical => "critical",
        }
    }

    /// Reads a stored column text back; `None` for text no level is stored as.
    pub fn from_sql(value: &str) -> (r: Option<RiskLevel>)
        ensures
            r == RiskLevel::parse_sql(value@),
    {
        if str_eq(value, "low") {
            Some(RiskLevel::Low)
        } else if str_eq(value, "medium") {
            Some(RiskLevel::Medium)
        } else if str_eq(value, "high") {
            Some(RiskLevel::High)
        } else if str_eq(value, "critical") {
            Some(RiskLevel::Critical)
        } else {
            None
        }
    }
}

/// A saved Stage 2 assessment; at most one exists per observation.
#[derive(Debug, Clone, PartialEq)]
pub struct Stage2Assessment {
    pub id: String,
    pub observation_id: String,
    pub risk_level: RiskLevel,
    pub category: Option<String>,
    pub department: Option<String>,
    pub equipment: Option<String>,
    pub legal_clause_id: Option<String>,
}

/// Reading back the stored text of a level gives that level.
pub proof fn lemma_risk_level_sql_round_trip(level: RiskLevel)
    ensures
        RiskLevel::parse_sql(level.sql_text()) == Some(level),
{
    reveal_strlit("low");
    reveal_strlit("medium");
    reveal_strlit("high");
    reveal_strlit("critical");
    assert("low"@.len() == 3);
    assert("medium"@.len() == 6);
    assert("high"@.len() == 4);
    assert("critical"@.len() == 8);
}

} // verus!
