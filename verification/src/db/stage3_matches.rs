//! Stage 3 outcome of each observation.
use vstd::prelude::*;

use crate::text::str_eq;

verus! {

/// Where an observation stands in Stage 3. A row starts `Escalated` when it
/// is created; `Matched` and `Written` count as resolved for the Stage 3
/// completion gate.
#[derive(Debug, Clone, Copy, PartialEq, Eq, Structural)]
pub enum Stage3MatchStatus {
    Matched,
    Written,
    Escalated,
}

impl Stage3MatchStatus {
    pub open spec fn sql_text(self) -> Seq<char> {
        match self {
            Stage3MatchStatus::Matched => "matched"@,
            Stage3MatchStatus::Written => "written"@,
            Stage3MatchStatus::Escalated => "escalated"@,
        }
    }

    pub open spec fn parse_sql(value: Seq<char>) -> Option<Stage3MatchStatus> {
        if value == "matched"@ {
            Some(Stage3MatchStatus::Matched)
        } else if value == "written"@ {
            Some(Stage3MatchStatus::Written)
        } else if value == "escalated"@ {
            Some(Stage3MatchStatus::Escalated)
        } else {
            None
        }
    }

    pub fn as_sql(self) -> (s: &'static str)
        ensures
            s@ == self.sql_text(),
    {
        match self {
            Stage3MatchStatus::Matched => "matched",
            Stage3MatchStatus::Written => "written",
            Stage3MatchStatus::Escalated => "escalated",
        }
    }

    pub fn from_sql(value: &str) -> (r: Option<Stage3MatchStatus>)
        ensures
            r == Stage3MatchStatus::parse_sql(value@),
    {
        if str_eq(value, "matched") {
            Some(Stage3MatchStatus::Matched)
        } else if str_eq(value, "written") {
            Some(Stage3MatchStatus::Written)
        } else if str_eq(value, "escalated") {
            Some(Stage3MatchStatus::Escalated)
        } else {
            None
        }
    }

    pub open spec fn resolved(self) -> bool {
        self is Matched || self is Written
    }

    /// Whether the observation counts as resolved for the completion gate.
    pub fn is_resolved(self) -> (r: bool)
        ensures
            r == self.resolved(),
    {
        match self {
            Stage3MatchStatus::Matched => true,
            Stage3MatchStatus::Written => true,
            Stage3MatchStatus::Escalated => false,
        }
    }

    /// The status a freshly created row has.
    pub fn initial() -> (r: Stage3MatchStatus)
        ensures
            r == Stage3MatchStatus::Escalated,
    {
        Stage3MatchStatus::Escalated
    }
}

/// Reading back the stored text of a status gives that status.
pub proof fn lemma_stage3_status_sql_round_trip(status: Stage3MatchStatus)
    ensures
        Stage3MatchStatus::parse_sql(status.sql_text()) == Some(status),
{
    reveal_strlit("matched");
    reveal_strlit("written");
    reveal_strlit("escalated");
    assert("matched"@[0] == 'm');
    assert("written"@[0] == 'w');
    assert("escalated"@.len() == 9);
    assert("matched"@.len() == 7);
}

} // verus!
