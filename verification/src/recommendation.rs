//! What the recommendation provider decides apart from scoring: which banks
//! and rows a search covers, and the recommendation texts shown under each
//! candidate.
use vstd::prelude::*;
use vstd::string::StringExecFns;

use crate::db::records::RecommendationBankEntry;
use crate::text::{str_eq, texts};

verus! {

/// One recommendation shown under a Stage 3 candidate card.
#[derive(Debug, Clone, PartialEq)]
pub struct RecommendationText {
    pub id: String,
    pub text: String,
}

/// The recommendations of a bank observation, as shown under its card: the
/// id and text of each, in the order given.
pub fn recommendation_texts(rows: &[RecommendationBankEntry]) -> (r: Vec<RecommendationText>)
    ensures
        r@.len() == rows@.len(),
        forall|i: int|
            0 <= i < rows@.len() ==> #[trigger] r@[i].id@ == rows@[i].id@ && r@[i].text@
                == rows@[i].text@,
{
    let mut r: Vec<RecommendationText> = Vec::new();
    let mut i: usize = 0;
    while i < rows.len()
        invariant
            i <= rows@.len(),
            r@.len() == i,
            forall|k: int|
                0 <= k < i ==> #[trigger] r@[k].id@ == rows@[k].id@ && r@[k].text@
                    == rows@[k].text@,
        decreases rows@.len() - i,
    {
        r.push(
            RecommendationText {
                id: String::from_str(rows[i].id.as_str()),
                text: String::from_str(rows[i].text.as_str()),
            },
        );
        i = i + 1;
    }
    r
}

/// The banks a search covers: those the query names, or every bank when it
/// names none.
pub fn search_scope(requested: Vec<String>, all_banks: Vec<String>) -> (r: Vec<String>)
    ensures
        r@ == if requested@.len() == 0 {
            all_banks@
        } else {
            requested@
        },
{
    if requested.len() == 0 {
        all_banks
    } else {
        requested
    }
}

/// Whether a text is one of `list`.
fn listed_text(list: &Vec<String>, t: &str) -> (r: bool)
    ensures
        r == texts(list@).contains(t@),
{
    let mut i: usize = 0;
    while i < list.len()
        invariant
            i <= list@.len(),
            forall|k: int| 0 <= k < i ==> list@[k]@ != t@,
        decreases list@.len() - i,
    {
        if str_eq(list[i].as_str(), t) {
            assert(texts(list@)[i as int] == t@);
            return true;
        }
        i = i + 1;
    }
    assert forall|k: int| 0 <= k < texts(list@).len() implies texts(list@)[k] != t@ by {
        assert(texts(list@)[k] == list@[k]@);
    }
    false
}

/// Which bank rows are scored: those the keyword search hit, or every row
/// when it hit none, so that fuzzy matching still gets its chance.
pub fn rows_to_score(row_ids: &Vec<String>, hits: &Vec<String>) -> (r: Vec<bool>)
    ensures
        r@.len() == row_ids@.len(),
        forall|i: int|
            0 <= i < row_ids@.len() ==> #[trigger] r@[i] == (hits@.len() == 0 || texts(
                hits@,
            ).contains(row_ids@[i]@)),
{
    let mut r: Vec<bool> = Vec::new();
    let mut i: usize = 0;
    while i < row_ids.len()
        invariant
            i <= row_ids@.len(),
            r@.len() == i,
            forall|k: int|
                0 <= k < i ==> #[trigger] r@[k] == (hits@.len() == 0 || texts(hits@).contains(
                    row_ids@[k]@,
                )),
        decreases row_ids@.len() - i,
    {
        let scored = hits.len() == 0 || listed_text(hits, row_ids[i].as_str());
        r.push(scored);
        i = i + 1;
    }
    r
}

} // verus!
