//! Keyword bank: terms admitted by an Admin, stored in normal form.
use vstd::prelude::*;
use vstd::string::StringExecFns;

use crate::db::error::DbError;
use crate::db::terms::{normalize_term, normalized, trimmed};

verus! {

/// Checks a term about to be admitted and returns the form it is stored in.
/// A term that is empty once normalised is refused.
pub fn prepare_term(term: &str) -> (r: Result<String, DbError>)
    ensures
        normalized(term@).len() == 0 <==> r is Err,
        trimmed(term@).len() == 0 <==> r is Err,
        r matches Ok(s) ==> s@ == normalized(term@),
        r matches Err(e) ==> e.is_invalid_input_with("term must not be empty"@),
{
    check_normalized_term(normalize_term(term))
}

/// The check `prepare_term` makes once the term is in normal form.
pub fn check_normalized_term(n: String) -> (r: Result<String, DbError>)
    ensures
        n@.len() == 0 <==> r is Err,
        r matches Ok(s) ==> s@ == n@,
        r matches Err(e) ==> e.is_invalid_input_with("term must not be empty"@),
{
    if n.as_str().is_empty() {
        return Err(DbError::InvalidInput(String::from_str("term must not be empty")));
    }
    Ok(n)
}

} // verus!
