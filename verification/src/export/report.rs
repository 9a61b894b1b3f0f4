//! The audit report's table: a header, then one row per observation with its
//! Stage 2 assessment and Stage 3 outcome side by side. Every format writes
//! this table.
use vstd::prelude::*;
use vstd::string::StringExecFns;

use crate::db::observations::Observation;
use crate::db::stage2_assessments::{lemma_risk_level_sql_round_trip, RiskLevel, Stage2Assessment};
use crate::db::stage3_matches::{lemma_stage3_status_sql_round_trip, Stage3MatchStatus};
use crate::text::{snake_case, str_eq, texts};

verus! {

/// What the report reads of an observation's Stage 3 match. The match score
/// arrives already rendered as its percentage label, one decimal and a `%`
/// (such as `87.5%`).
#[derive(Debug, Clone, PartialEq)]
pub struct MatchSummary {
    pub observation_id: String,
    pub status: Stage3MatchStatus,
    pub bank_key: Option<String>,
    pub score_label: Option<String>,
    pub final_text: Option<String>,
}

/// The number of columns of the report.
pub const REPORT_COLUMNS: usize = 11;

/// The column titles, in order.
pub open spec fn header_labels() -> Seq<Seq<char>> {
    seq![
        "Location"@,
        "Observation"@,
        "Risk Level"@,
        "Category"@,
        "Department"@,
        "Equipment"@,
        "Legal Clause"@,
        "Stage 3 Status"@,
        "Matched Bank Key"@,
        "Match Score"@,
        "Final Text"@,
    ]
}

/// The assessment shown for an observation: the last one listed for it.
pub open spec fn latest_assessment(list: Seq<Stage2Assessment>, id: Seq<char>) -> Option<
    Stage2Assessment,
>
    decreases list.len(),
{
    if list.len() == 0 {
        None
    } else if list.last().observation_id@ == id {
        Some(list.last())
    } else {
        latest_assessment(list.drop_last(), id)
    }
}

/// The match shown for an observation: the last one listed for it.
pub open spec fn latest_match(list: Seq<MatchSummary>, id: Seq<char>) -> Option<MatchSummary>
    decreases list.len(),
{
    if list.len() == 0 {
        None
    } else if list.last().observation_id@ == id {
        Some(list.last())
    } else {
        latest_match(list.drop_last(), id)
    }
}

/// How a risk level is spelled in the report.
pub open spec fn risk_label(level: RiskLevel) -> Seq<char> {
    match level {
        RiskLevel::Low => "Low"@,
        RiskLevel::Medium => "Medium"@,
        RiskLevel::High => "High"@,
        RiskLevel::Critical => "Critical"@,
    }
}

/// A report spells a risk level as the CamelCase form of its stored text
/// (`critical` reads `Critical`), so different levels read differently.
pub proof fn lemma_risk_label_spells_the_level(a: RiskLevel, b: RiskLevel)
    ensures
        a.sql_text() == snake_case(risk_label(a)),
        risk_label(a) == risk_label(b) ==> a == b,
{
    reveal_strlit("Low");
    reveal_strlit("low");
    reveal_strlit("Medium");
    reveal_strlit("medium");
    reveal_strlit("High");
    reveal_strlit("high");
    reveal_strlit("Critical");
    reveal_strlit("critical");
    reveal_with_fuel(snake_case, 9);
    assert(snake_case("Low"@) =~= "low"@);
    assert(snake_case("Medium"@) =~= "medium"@);
    assert(snake_case("High"@) =~= "high"@);
    assert(snake_case("Critical"@) =~= "critical"@);
    lemma_risk_level_sql_round_trip(a);
    lemma_risk_level_sql_round_trip(b);
}

/// How a Stage 3 status is spelled in the report.
pub open spec fn status_label(status: Stage3MatchStatus) -> Seq<char> {
    match status {
        Stage3MatchStatus::Matched => "Matched"@,
        Stage3MatchStatus::Written => "Written"@,
        Stage3MatchStatus::Escalated => "Escalated"@,
    }
}

/// A report spells a Stage 3 status as the CamelCase form of its stored text
/// (`matched` reads `Matched`), so different statuses read differently, and
/// none reads like an observation without a match.
pub proof fn lemma_status_label_spells_the_status(a: Stage3MatchStatus, b: Stage3MatchStatus)
    ensures
        a.sql_text() == snake_case(status_label(a)),
        status_label(a) == status_label(b) ==> a == b,
        status_label(a) != "(not assessed)"@,
{
    reveal_strlit("Matched");
    reveal_strlit("matched");
    reveal_strlit("Written");
    reveal_strlit("written");
    reveal_strlit("Escalated");
    reveal_strlit("escalated");
    reveal_strlit("(not assessed)");
    reveal_with_fuel(snake_case, 10);
    assert(snake_case("Matched"@) =~= "matched"@);
    assert(snake_case("Written"@) =~= "written"@);
    assert(snake_case("Escalated"@) =~= "escalated"@);
    assert("(not assessed)"@[0] == '(');
    lemma_stage3_status_sql_round_trip(a);
    lemma_stage3_status_sql_round_trip(b);
}

/// The text of an optional string, empty when there is none.
pub open spec fn text_or_empty(o: Option<String>) -> Seq<char> {
    match o {
        Some(s) => s@,
        None => Seq::empty(),
    }
}

/// The report row of one observation, given the assessment and match shown
/// for it. Missing values are empty cells, except the Stage 3 status of an
/// observation with no match, which reads `(not assessed)`.
pub open spec fn report_row(
    obs: Observation,
    assessment: Option<Stage2Assessment>,
    found: Option<MatchSummary>,
) -> Seq<Seq<char>> {
    seq![
        text_or_empty(obs.location),
        obs.text@,
        match assessment {
            Some(a) => risk_label(a.risk_level),
            None => Seq::empty(),
        },
        match assessment {
            Some(a) => text_or_empty(a.category),
            None => Seq::empty(),
        },
        match assessment {
            Some(a) => text_or_empty(a.department),
            None => Seq::empty(),
        },
        match assessment {
            Some(a) => text_or_empty(a.equipment),
            None => Seq::empty(),
        },
        match assessment {
            Some(a) => text_or_empty(a.legal_clause_id),
            None => Seq::empty(),
        },
        match found {
            Some(m) => status_label(m.status),
            None => "(not assessed)"@,
        },
        match found {
            Some(m) => text_or_empty(m.bank_key),
            None => Seq::empty(),
        },
        match found {
            Some(m) => text_or_empty(m.score_label),
            None => Seq::empty(),
        },
        match found {
            Some(m) => text_or_empty(m.final_text),
            None => Seq::empty(),
        },
    ]
}

/// The report row of the observation at position `i`.
pub open spec fn observation_row(
    observations: Seq<Observation>,
    assessments: Seq<Stage2Assessment>,
    matches: Seq<MatchSummary>,
    i: int,
) -> Seq<Seq<char>> {
    report_row(
        observations[i],
        latest_assessment(assessments, observations[i].id@),
        latest_match(matches, observations[i].id@),
    )
}

/// The whole report: the header, then the observations' rows in their order.
pub open spec fn report_table(
    observations: Seq<Observation>,
    assessments: Seq<Stage2Assessment>,
    matches: Seq<MatchSummary>,
) -> Seq<Seq<Seq<char>>> {
    seq![header_labels()] + Seq::new(
        observations.len(),
        |i: int| observation_row(observations, assessments, matches, i),
    )
}

/// The column titles.
pub fn header_cells() -> (r: Vec<String>)
    ensures
        r@.len() == REPORT_COLUMNS,
        texts(r@) == header_labels(),
{
    let mut r: Vec<String> = Vec::new();
    r.push(String::from_str("Location"));
    r.push(String::from_str("Observation"));
    r.push(String::from_str("Risk Level"));
    r.push(String::from_str("Category"));
    r.push(String::from_str("Department"));
    r.push(String::from_str("Equipment"));
    r.push(String::from_str("Legal Clause"));
    r.push(String::from_str("Stage 3 Status"));
    r.push(String::from_str("Matched Bank Key"));
    r.push(String::from_str("Match Score"));
    r.push(String::from_str("Final Text"));
    assert(texts(r@) =~= header_labels());
    r
}

/// The assessment shown for the observation with this id, if any.
pub fn find_assessment<'a>(list: &'a [Stage2Assessment], id: &str) -> (r: Option<
    &'a Stage2Assessment,
>)
    ensures
        match r {
            Some(a) => latest_assessment(list@, id@) == Some(*a),
            None => latest_assessment(list@, id@) is None,
        },
{
    let mut i: usize = list.len();
    assert(list@.take(list@.len() as int) =~= list@);
    while i > 0
        invariant
            i <= list@.len(),
            latest_assessment(list@, id@) == latest_assessment(list@.take(i as int), id@),
        decreases i,
    {
        i = i - 1;
        assert(list@.take(i + 1).drop_last() =~= list@.take(i as int));
        assert(list@.take(i + 1).last() == list@[i as int]);
        if str_eq(list[i].observation_id.as_str(), id) {
            return Some(&list[i]);
        }
    }
    None
}

/// The match shown for the observation with this id, if any.
pub fn find_match<'a>(list: &'a [MatchSummary], id: &str) -> (r: Option<&'a MatchSummary>)
    ensures
        match r {
            Some(m) => latest_match(list@, id@) == Some(*m),
            None => latest_match(list@, id@) is None,
        },
{
    let mut i: usize = list.len();
    assert(list@.take(list@.len() as int) =~= list@);
    while i > 0
        invariant
            i <= list@.len(),
            latest_match(list@, id@) == latest_match(list@.take(i as int), id@),
        decreases i,
    {
        i = i - 1;
        assert(list@.take(i + 1).drop_last() =~= list@.take(i as int));
        assert(list@.take(i + 1).last() == list@[i as int]);
        if str_eq(list[i].observation_id.as_str(), id) {
            return Some(&list[i]);
        }
    }
    None
}

fn copy_or_empty(o: &Option<String>) -> (r: String)
    ensures
        r@ == text_or_empty(*o),
{
    match o {
        Some(s) => String::from_str(s.as_str()),
        None => String::new(),
    }
}

fn risk_name(level: RiskLevel) -> (r: String)
    ensures
        r@ == risk_label(level),
{
    match level {
        RiskLevel::Low => String::from_str("Low"),
        RiskLevel::Medium => String::from_str("Medium"),
        RiskLevel::High => String::from_str("High"),
        RiskLevel::Critical => String::from_str("Critical"),
    }
}

fn status_name(status: Stage3MatchStatus) -> (r: String)
    ensures
        r@ == status_label(status),
{
    match status {
        Stage3MatchStatus::Matched => String::from_str("Matched"),
        Stage3MatchStatus::Written => String::from_str("Written"),
        Stage3MatchStatus::Escalated => String::from_str("Escalated"),
    }
}

/// The report row of one observation, with the assessment and match listed
/// last for it.
pub fn row_cells(obs: &Observation, assessments: &[Stage2Assessment], matches: &[MatchSummary]) -> (r:
    Vec<String>)
    ensures
        r@.len() == REPORT_COLUMNS,
        texts(r@) == report_row(
            *obs,
            latest_assessment(assessments@, obs.id@),
            latest_match(matches@, obs.id@),
        ),
{
    let assessment = find_assessment(assessments, obs.id.as_str());
    let found = find_match(matches, obs.id.as_str());
    let mut r: Vec<String> = Vec::new();
    r.push(copy_or_empty(&obs.location));
    r.push(String::from_str(obs.text.as_str()));
    match assessment {
        Some(a) => {
            r.push(risk_name(a.risk_level));
            r.push(copy_or_empty(&a.category));
            r.push(copy_or_empty(&a.department));
            r.push(copy_or_empty(&a.equipment));
            r.push(copy_or_empty(&a.legal_clause_id));
        },
        None => {
            r.push(String::new());
            r.push(String::new());
            r.push(String::new());
            r.push(String::new());
            r.push(String::new());
        },
    }
    match found {
        Some(m) => {
            r.push(status_name(m.status));
            r.push(copy_or_empty(&m.bank_key));
            r.push(copy_or_empty(&m.score_label));
            r.push(copy_or_empty(&m.final_text));
        },
        None => {
            r.push(String::from_str("(not assessed)"));
            r.push(String::new());
            r.push(String::new());
            r.push(String::new());
        },
    }
    assert(texts(r@) =~= report_row(
        *obs,
        latest_assessment(assessments@, obs.id@),
        latest_match(matches@, obs.id@),
    ));
    r
}

} // verus!
