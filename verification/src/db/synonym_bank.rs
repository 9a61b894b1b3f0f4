//! Synonym bank: approved pairs of terms that mean the same thing.
use vstd::prelude::*;
use vstd::string::StringExecFns;

use crate::db::error::DbError;
use crate::db::terms::{normalize_term, normalized, trimmed};

verus! {

/// Checks a synonym pair about to be admitted and returns both terms in
/// normal form. Either term empty once normalised, or the two terms equal
/// once normalised, is refused, with distinct messages.
pub fn prepare_pair(term_a: &str, term_b: &str) -> (r: Result<(String, String), DbError>)
    ensures
        r is Ok <==> normalized(term_a@).len() > 0 && normalized(term_b@).len() > 0
            && normalized(term_a@) != normalized(term_b@),
        r matches Ok(p) ==> p.0@ == normalized(term_a@) && p.1@ == normalized(term_b@),
        trimmed(term_a@).len() == 0 || trimmed(term_b@).len() == 0 ==> (r matches Err(e)
            && e.is_invalid_input_with("term_a/term_b must not be empty"@)),
        r matches Err(e) ==> {
            if normalized(term_a@).len() == 0 || normalized(term_b@).len() == 0 {
                e.is_invalid_input_with("term_a/term_b must not be empty"@)
            } else {
                e.is_invalid_input_with("a term cannot be a synonym of itself"@)
            }
        },
{
    check_normalized_pair(normalize_term(term_a), normalize_term(term_b))
}

/// The check `prepare_pair` makes once both terms are in normal form.
pub fn check_normalized_pair(a: String, b: String) -> (r: Result<(String, String), DbError>)
    ensures
        r is Ok <==> a@.len() > 0 && b@.len() > 0 && a@ != b@,
        r matches Ok(p) ==> p.0@ == a@ && p.1@ == b@,
        r matches Err(e) ==> {
            if a@.len() == 0 || b@.len() == 0 {
                e.is_invalid_input_with("term_a/term_b must not be empty"@)
            } else {
                e.is_invalid_input_with("a term cannot be a synonym of itself"@)
            }
        },
{
    if a.as_str().is_empty() || b.as_str().is_empty() {
        return Err(DbError::InvalidInput(String::from_str("term_a/term_b must not be empty")));
    }
    if a == b {
        return Err(DbError::InvalidInput(String::from_str("a term cannot be a synonym of itself")));
    }
    Ok((a, b))
}

/// No term is accepted as a synonym of itself, whatever its case or spacing.
pub proof fn lemma_no_self_synonym(term_a: Seq<char>, term_b: Seq<char>)
    requires
        normalized(term_a) == normalized(term_b),
    ensures
        !(normalized(term_a).len() > 0 && normalized(term_b).len() > 0 && normalized(term_a)
            != normalized(term_b)),
{
}

} // verus!
