//! Suspected duplicate pairs among pending observations, awaiting an Admin.
use vstd::prelude::*;

use crate::text::str_eq;

verus! {

/// Resolution state of a merge request.
#[derive(Debug, Clone, Copy, PartialEq, Eq, Structural)]
pub enum MergeRequestStatus {
    Pending,
    Merged,
    KeptBoth,
    Discarded,
}

impl MergeRequestStatus {
    pub open spec fn sql_text(self) -> Seq<char> {
        match self {
            MergeRequestStatus::Pending => "pending"@,
            MergeRequestStatus::Merged => "merged"@,
            MergeRequestStatus::KeptBoth => "kept_both"@,
            MergeRequestStatus::Discarded => "discarded"@,
        }
    }

    pub open spec fn parse_sql(value: Seq<char>) -> Option<MergeRequestStatus> {
        if value == "pending"@ {
            Some(MergeRequestStatus::Pending)
        } else if value == "merged"@ {
            Some(MergeRequestStatus::Merged)
        } else if value == "kept_both"@ {
            Some(MergeRequestStatus::KeptBoth)
        } else if value == "discarded"@ {
            Some(MergeRequestStatus::Discarded)
        } else {
            None
        }
    }

    pub fn as_sql(self) -> (s: &'static str)
        ensures
            s@ == self.sql_text(),
    {
        match self {
            MergeRequestStatus::Pending => "pending",
            MergeRequestStatus::Merged => "merged",
            MergeRequestStatus::KeptBoth => "kept_both",
            MergeRequestStatus::Discarded => "discarded",
        }
    }

    pub fn from_sql(value: &str) -> (r: Option<MergeRequestStatus>)
        ensures
            r == MergeRequestStatus::parse_sql(value@),
    {
        if str_eq(value, "pending") {
            Some(MergeRequestStatus::Pending)
        } else if str_eq(value, "merged") {
            Some(MergeRequestStatus::Merged)
        } else if str_eq(value, "kept_both") {
            Some(MergeRequestStatus::KeptBoth)
        } else if str_eq(value, "discarded") {
            Some(MergeRequestStatus::Discarded)
        } else {
            None
        }
    }
}

/// Reading back the stored text of a status gives that status.
pub proof fn lemma_merge_request_status_sql_round_trip(status: MergeRequestStatus)
    ensures
        MergeRequestStatus::parse_sql(status.sql_text()) == Some(status),
{
    reveal_strlit("pending");
    reveal_strlit("merged");
    reveal_strlit("kept_both");
    reveal_strlit("discarded");
    assert("pending"@.len() == 7);
    assert("merged"@.len() == 6);
    assert("kept_both"@[0] == 'k');
    assert("discarded"@[0] == 'd');
}

/// Whether a request between `a` and `b` concerns the candidates `x` and
/// `y`, in either order.
pub open spec fn same_pair(a: i64, b: i64, x: i64, y: i64) -> bool {
    (a == x && b == y) || (a == y && b == x)
}

/// Whether a request between `a` and `b` concerns the candidates `x` and `y`,
/// in either order: an unresolved request for a pair is reused rather than
/// duplicated, whichever way round the pair is given.
pub fn is_same_pair(a: i64, b: i64, x: i64, y: i64) -> (r: bool)
    ensures
        r == same_pair(a, b, x, y),
{
    (a == x && b == y) || (a == y && b == x)
}

/// The pair relation does not depend on the order either pair is given in.
pub proof fn lemma_same_pair_symmetric(a: i64, b: i64, x: i64, y: i64)
    ensures
        same_pair(a, b, x, y) == same_pair(b, a, x, y),
        same_pair(a, b, x, y) == same_pair(a, b, y, x),
        same_pair(a, b, x, y) == same_pair(x, y, a, b),
        same_pair(a, b, a, b),
{
}

/// Two pairs are the same pair exactly when they name the same candidates: a
/// pending request is reused only for those two observations.
pub proof fn lemma_same_pair_means_same_candidates(a: i64, b: i64, x: i64, y: i64)
    ensures
        same_pair(a, b, x, y) <==> set![a, b] == set![x, y],
{
    if set![a, b] == set![x, y] {
        assert(set![x, y].contains(a));
        assert(set![x, y].contains(b));
        assert(set![a, b].contains(x));
        assert(set![a, b].contains(y));
    }
    if same_pair(a, b, x, y) {
        assert(set![a, b] =~= set![x, y]);
    }
}

} // verus!
