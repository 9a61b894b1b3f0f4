//! Mined keywords and synonym pairs awaiting Admin approval.
use vstd::prelude::*;
use vstd::string::StringExecFns;

use crate::db::error::DbError;
use crate::db::terms::{normalize_term, normalized, trimmed};
use crate::text::{str_eq, texts};

verus! {

/// Review state of a mined keyword or synonym pair.
#[derive(Debug, Clone, Copy, PartialEq, Eq, Structural)]
pub enum TermPendingStatus {
    Pending,
    Approved,
    Rejected,
}

impl TermPendingStatus {
    pub open spec fn sql_text(self) -> Seq<char> {
        match self {
            TermPendingStatus::Pending => "pending"@,
            TermPendingStatus::Approved => "approved"@,
            TermPendingStatus::Rejected => "rejected"@,
        }
    }

    pub open spec fn parse_sql(value: Seq<char>) -> Option<TermPendingStatus> {
        if value == "pending"@ {
            Some(TermPendingStatus::Pending)
        } else if value == "approved"@ {
            Some(TermPendingStatus::Approved)
        } else if value == "rejected"@ {
            Some(TermPendingStatus::Rejected)
        } else {
            None
        }
    }

    pub fn as_sql(self) -> (s: &'static str)
        ensures
            s@ == self.sql_text(),
    {
        match self {
            TermPendingStatus::Pending => "pending",
            TermPendingStatus::Approved => "approved",
            TermPendingStatus::Rejected => "rejected",
        }
    }

    pub fn from_sql(value: &str) -> (r: Option<TermPendingStatus>)
        ensures
            r == TermPendingStatus::parse_sql(value@),
    {
        if str_eq(value, "pending") {
            Some(TermPendingStatus::Pending)
        } else if str_eq(value, "approved") {
            Some(TermPendingStatus::Approved)
        } else if str_eq(value, "rejected") {
            Some(TermPendingStatus::Rejected)
        } else {
            None
        }
    }
}

/// Reading back the stored text of a status gives that status.
pub proof fn lemma_term_pending_status_sql_round_trip(status: TermPendingStatus)
    ensures
        TermPendingStatus::parse_sql(status.sql_text()) == Some(status),
{
    reveal_strlit("pending");
    reveal_strlit("approved");
    reveal_strlit("rejected");
    assert("pending"@.len() == 7);
    assert("approved"@[0] == 'a');
    assert("rejected"@[0] == 'r');
}

/// A mined candidate term awaiting approval into the keyword bank.
#[derive(Debug, Clone, PartialEq)]
pub struct PendingKeyword {
    pub id: i64,
    pub term: String,
    /// Bank keys the term was seen under, each recorded once.
    pub contexts: Vec<String>,
    pub frequency_observed: i64,
    pub status: TermPendingStatus,
}

/// The text of an optional string slice.
pub open spec fn opt_text(o: Option<&str>) -> Option<Seq<char>> {
    match o {
        Some(s) => Some(s@),
        None => None,
    }
}

/// The context list after one more sighting: the new context is appended
/// unless it is absent or already recorded.
pub open spec fn merged_contexts(contexts: Seq<Seq<char>>, context: Option<Seq<char>>) -> Seq<
    Seq<char>,
> {
    match context {
        Some(c) => if contexts.contains(c) {
            contexts
        } else {
            contexts.push(c)
        },
        None => contexts,
    }
}

/// The context list of a term's first sighting.
pub open spec fn first_contexts(context: Option<Seq<char>>) -> Seq<Seq<char>> {
    match context {
        Some(c) => seq![c],
        None => Seq::empty(),
    }
}

/// Whether `contexts` already records `c`.
pub fn contains_text(contexts: &Vec<String>, c: &str) -> (r: bool)
    ensures
        r == texts(contexts@).contains(c@),
{
    let mut i: usize = 0;
    while i < contexts.len()
        invariant
            0 <= i <= contexts@.len(),
            forall|k: int| 0 <= k < i ==> contexts@[k]@ != c@,
        decreases contexts@.len() - i,
    {
        if str_eq(contexts[i].as_str(), c) {
            assert(texts(contexts@)[i as int] == c@);
            return true;
        }
        i = i + 1;
    }
    assert forall|k: int| 0 <= k < texts(contexts@).len() implies texts(contexts@)[k] != c@ by {
        assert(texts(contexts@)[k] == contexts@[k]@);
    }
    false
}

/// Folds one more sighting's context into an existing context list.
pub fn merge_context(contexts: &Vec<String>, context: Option<&str>) -> (r: Vec<String>)
    ensures
        texts(r@) == merged_contexts(texts(contexts@), opt_text(context)),
{
    let mut out = contexts.clone();
    assert(texts(out@) =~= texts(contexts@));
    if let Some(c) = context {
        if !contains_text(contexts, c) {
            out.push(String::from_str(c));
            assert(texts(out@) =~= texts(contexts@).push(c@));
        }
    }
    out
}

/// The context list recorded on a term's first sighting.
pub fn initial_contexts(context: Option<&str>) -> (r: Vec<String>)
    ensures
        texts(r@) == first_contexts(opt_text(context)),
{
    let mut out: Vec<String> = Vec::new();
    if let Some(c) = context {
        out.push(String::from_str(c));
    }
    assert(texts(out@) =~= first_contexts(opt_text(context)));
    out
}

/// What a further sighting of an already-pending term makes of its row: one
/// more observation, and the context folded in. Nothing else changes.
pub fn record_sighting(existing: &PendingKeyword, context: Option<&str>) -> (r: PendingKeyword)
    requires
        existing.frequency_observed < i64::MAX,
    ensures
        r.id == existing.id,
        r.term@ == existing.term@,
        r.status == existing.status,
        r.frequency_observed == existing.frequency_observed + 1,
        texts(r.contexts@) == merged_contexts(
            texts(existing.contexts@),
            opt_text(context),
        ),
{
    PendingKeyword {
        id: existing.id,
        term: existing.term.clone(),
        contexts: merge_context(&existing.contexts, context),
        frequency_observed: existing.frequency_observed + 1,
        status: existing.status,
    }
}

/// Folding the same context in twice records it once.
pub proof fn lemma_merge_context_idempotent(contexts: Seq<Seq<char>>, context: Option<Seq<char>>)
    ensures
        merged_contexts(merged_contexts(contexts, context), context) == merged_contexts(
            contexts,
            context,
        ),
{
    if let Some(c) = context {
        if !contexts.contains(c) {
            assert(contexts.push(c)[contexts.len() as int] == c);
        }
    }
}

/// A context list without repeats stays without repeats.
pub proof fn lemma_merge_context_keeps_distinct(
    contexts: Seq<Seq<char>>,
    context: Option<Seq<char>>,
)
    requires
        contexts.no_duplicates(),
    ensures
        merged_contexts(contexts, context).no_duplicates(),
        forall|x: Seq<char>|
            contexts.contains(x) ==> #[trigger] merged_contexts(contexts, context).contains(x),
        context matches Some(c) ==> merged_contexts(contexts, context).contains(c),
{
    if let Some(c) = context {
        if !contexts.contains(c) {
            let r = contexts.push(c);
            assert(r[contexts.len() as int] == c);
            assert forall|x: Seq<char>| contexts.contains(x) implies r.contains(x) by {
                let k = choose|k: int| 0 <= k < contexts.len() && contexts[k] == x;
                assert(r[k] == x);
            }
        }
    }
}

/// Checks a mined synonym pair and returns both terms in normal form; either
/// term empty, or both the same, once normalised, is refused.
pub fn prepare_pending_synonym(term_a: &str, term_b: &str) -> (r: Result<(String, String), DbError>)
    ensures
        r is Ok <==> normalized(term_a@).len() > 0 && normalized(term_b@).len() > 0
            && normalized(term_a@) != normalized(term_b@),
        r matches Ok(p) ==> p.0@ == normalized(term_a@) && p.1@ == normalized(term_b@),
        trimmed(term_a@).len() == 0 || trimmed(term_b@).len() == 0 ==> r is Err,
        r matches Err(e) ==> e.is_invalid_input_with(
            "term_a/term_b must be non-empty and distinct"@,
        ),
{
    check_normalized_synonym(normalize_term(term_a), normalize_term(term_b))
}

/// The check `prepare_pending_synonym` makes once both terms are in normal
/// form.
pub fn check_normalized_synonym(a: String, b: String) -> (r: Result<(String, String), DbError>)
    ensures
        r is Ok <==> a@.len() > 0 && b@.len() > 0 && a@ != b@,
        r matches Ok(p) ==> p.0@ == a@ && p.1@ == b@,
        r matches Err(e) ==> e.is_invalid_input_with(
            "term_a/term_b must be non-empty and distinct"@,
        ),
{
    if a.as_str().is_empty() || b.as_str().is_empty() || a == b {
        return Err(
            DbError::InvalidInput(String::from_str("term_a/term_b must be non-empty and distinct")),
        );
    }
    Ok((a, b))
}

} // verus!
