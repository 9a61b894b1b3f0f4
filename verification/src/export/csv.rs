//! The report as comma-separated values (RFC 4180): one record per table
//! row, each ended by CRLF; a field holding a comma, a double quote or a
//! line break is put in double quotes, with its double quotes doubled.
use vstd::prelude::*;
use vstd::string::StringExecFns;

use crate::db::observations::Observation;
use crate::db::stage2_assessments::Stage2Assessment;
use crate::export::report::{header_cells, header_labels, observation_row, report_table, row_cells, MatchSummary};
use crate::export::ExportResult;
use crate::text::{append_bytes, push_char, text_chars, texts};

verus! {

/// Whether a character forces its field into quotes.
pub open spec fn is_special(c: char) -> bool {
    c == ',' || c == '"' || c == '\n' || c == '\r'
}

/// Whether a field must be written in quotes.
pub open spec fn needs_quoting(s: Seq<char>) -> bool {
    exists|k: int| 0 <= k < s.len() && is_special(#[trigger] s[k])
}

/// The field with each double quote doubled.
pub open spec fn doubled_quotes(s: Seq<char>) -> Seq<char>
    decreases s.len(),
{
    if s.len() == 0 {
        s
    } else {
        doubled_quotes(s.drop_last()) + if s.last() == '"' {
            seq!['"', '"']
        } else {
            seq![s.last()]
        }
    }
}

/// How a field is written.
pub open spec fn csv_field(s: Seq<char>) -> Seq<char> {
    if needs_quoting(s) {
        seq!['"'] + doubled_quotes(s) + seq!['"']
    } else {
        s
    }
}

/// The fields of a record, written and separated by commas.
pub open spec fn csv_record(fields: Seq<Seq<char>>) -> Seq<char>
    decreases fields.len(),
{
    if fields.len() == 0 {
        Seq::empty()
    } else if fields.len() == 1 {
        csv_field(fields[0])
    } else {
        csv_record(fields.drop_last()) + seq![','] + csv_field(fields.last())
    }
}

/// The records of a table, each followed by CRLF.
pub open spec fn csv_text(table: Seq<Seq<Seq<char>>>) -> Seq<char>
    decreases table.len(),
{
    if table.len() == 0 {
        Seq::empty()
    } else {
        csv_text(table.drop_last()) + csv_record(table.last()) + seq!['\r', '\n']
    }
}

/// One field, quoted where it must be.
pub fn quote_field(field: &str) -> (r: String)
    ensures
        r@ == csv_field(field@),
{
    let chars = text_chars(field);
    let mut special = false;
    let mut i: usize = 0;
    while i < chars.len()
        invariant
            chars@ == field@,
            i <= chars@.len(),
            special == (exists|k: int| 0 <= k < i && is_special(#[trigger] chars@[k])),
        decreases chars@.len() - i,
    {
        let c = chars[i];
        if c == ',' || c == '"' || c == '\n' || c == '\r' {
            special = true;
        }
        i = i + 1;
    }
    if !special {
        return String::from_str(field);
    }
    let mut out = String::from_str("\"");
    proof {
        reveal_strlit("\"");
    }
    let mut j: usize = 0;
    assert(chars@.take(0) =~= Seq::<char>::empty());
    while j < chars.len()
        invariant
            chars@ == field@,
            j <= chars@.len(),
            out@ == seq!['"'] + doubled_quotes(chars@.take(j as int)),
        decreases chars@.len() - j,
    {
        let c = chars[j];
        assert(chars@.take(j + 1).drop_last() =~= chars@.take(j as int));
        push_char(&mut out, c);
        if c == '"' {
            push_char(&mut out, '"');
        }
        j = j + 1;
        assert(out@ =~= seq!['"'] + doubled_quotes(chars@.take(j as int)));
    }
    assert(chars@.take(chars@.len() as int) =~= chars@);
    push_char(&mut out, '"');
    out
}

/// One record: its fields, quoted where they must be, separated by commas.
pub fn record_line(fields: &Vec<String>) -> (r: String)
    ensures
        r@ == csv_record(texts(fields@)),
{
    let ghost t = texts(fields@);
    let mut out = String::new();
    let mut i: usize = 0;
    assert(t.take(0) =~= Seq::<Seq<char>>::empty());
    while i < fields.len()
        invariant
            t == texts(fields@),
            i <= fields@.len(),
            out@ == csv_record(t.take(i as int)),
        decreases fields@.len() - i,
    {
        if i > 0 {
            push_char(&mut out, ',');
        }
        let q = quote_field(fields[i].as_str());
        out.append(q.as_str());
        assert(t.take(i + 1).drop_last() =~= t.take(i as int));
        i = i + 1;
        assert(out@ =~= csv_record(t.take(i as int)));
    }
    assert(t.take(fields@.len() as int) =~= t);
    out
}

/// The report as CSV text: the header record, then one record per
/// observation in order.
pub fn report_csv(
    observations: &[Observation],
    assessments: &[Stage2Assessment],
    matches: &[MatchSummary],
) -> (r: String)
    ensures
        r@ == csv_text(report_table(observations@, assessments@, matches@)),
{
    let ghost table = report_table(observations@, assessments@, matches@);
    let mut out = String::new();
    let header = header_cells();
    out.append(record_line(&header).as_str());
    push_char(&mut out, '\r');
    push_char(&mut out, '\n');
    assert(table.take(1).drop_last() =~= Seq::<Seq<Seq<char>>>::empty());
    assert(table.take(1).last() == table[0]);
    assert(table[0] == header_labels());
    assert(csv_text(Seq::<Seq<Seq<char>>>::empty()) == Seq::<char>::empty());
    assert(out@ =~= csv_text(table.take(1)));
    let mut i: usize = 0;
    while i < observations.len()
        invariant
            i <= observations@.len(),
            table == report_table(observations@, assessments@, matches@),
            out@ == csv_text(table.take(i + 1)),
        decreases observations@.len() - i,
    {
        let cells = row_cells(&observations[i], assessments, matches);
        assert(texts(cells@) == table[i + 1]) by {
            assert(table[i + 1] == observation_row(
                observations@,
                assessments@,
                matches@,
                i as int,
            ));
        }
        out.append(record_line(&cells).as_str());
        push_char(&mut out, '\r');
        push_char(&mut out, '\n');
        assert(table.take(i + 2).drop_last() =~= table.take(i + 1));
        i = i + 1;
        assert(out@ =~= csv_text(table.take(i + 1)));
    }
    assert(table.take(observations@.len() + 1int) =~= table);
    out
}

/// The report as the UTF-8 bytes of its CSV text.
pub fn export_csv(
    observations: &[Observation],
    assessments: &[Stage2Assessment],
    matches: &[MatchSummary],
) -> (r: ExportResult<Vec<u8>>)
    ensures
        r matches Ok(bytes) && bytes@ == vstd::utf8::encode_utf8(
            csv_text(report_table(observations@, assessments@, matches@)),
        ),
{
    let text = report_csv(observations, assessments, matches);
    let mut bytes: Vec<u8> = Vec::new();
    append_bytes(&mut bytes, text.as_str().as_bytes());
    Ok(bytes)
}

} // verus!
