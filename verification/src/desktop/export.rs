//! The export command's side: reading the requested format, naming the
//! report file, and describing what was written.
use vstd::prelude::*;
use vstd::string::StringExecFns;

use crate::db::terms::{lowercase, to_lowercase};
use crate::export::ExportFormat;
use crate::text::{push_char, str_eq, text_chars};

verus! {

/// A request to export an audit's report.
#[derive(Debug, Clone, PartialEq)]
pub struct ExportInput {
    pub audit_id: String,
    /// `xlsx` or `csv`, in any letter case.
    pub format: String,
}

/// Where a report was written and how to serve it.
#[derive(Debug, Clone, PartialEq)]
pub struct ExportResult {
    pub file_path: String,
    pub format: String,
    pub mime_type: String,
}

/// The format a lower-cased format name denotes, if any.
pub open spec fn format_named(name: Seq<char>) -> Option<ExportFormat> {
    if name == "xlsx"@ {
        Some(ExportFormat::Xlsx)
    } else if name == "csv"@ {
        Some(ExportFormat::Csv)
    } else {
        None
    }
}

/// The format a lower-cased format name denotes; any other name is refused
/// with a message that quotes it and lists the supported ones.
pub fn export_format_named(name: &str) -> (r: Result<ExportFormat, String>)
    ensures
        match format_named(name@) {
            Some(f) => r == Ok::<ExportFormat, String>(f),
            None => r matches Err(m) && m@ == "unknown export format '"@ + name@
                + "' (supported: xlsx, csv)"@,
        },
{
    if str_eq(name, "xlsx") {
        Ok(ExportFormat::Xlsx)
    } else if str_eq(name, "csv") {
        Ok(ExportFormat::Csv)
    } else {
        Err(
            String::from_str("unknown export format '").concat(name).concat(
                "' (supported: xlsx, csv)",
            ),
        )
    }
}

/// The format a request names, letter case aside.
pub fn parse_export_format(requested: &str) -> (r: Result<ExportFormat, String>)
    ensures
        match format_named(lowercase(requested@)) {
            Some(f) => r == Ok::<ExportFormat, String>(f),
            None => r matches Err(m) && m@ == "unknown export format '"@ + lowercase(requested@)
                + "' (supported: xlsx, csv)"@,
        },
{
    let lowered = to_lowercase(requested);
    export_format_named(lowered.as_str())
}

/// The number of characters of the audit id a report's file name keeps.
pub const FILE_NAME_ID_CHARS: usize = 8;

/// The file name of an audit's report: `ADITUP-Audit-`, the first eight
/// characters of the audit id, a dot and the format's extension.
pub open spec fn report_file_name_text(audit_id: Seq<char>, format: ExportFormat) -> Seq<char> {
    let kept = if audit_id.len() < FILE_NAME_ID_CHARS {
        audit_id
    } else {
        audit_id.take(FILE_NAME_ID_CHARS as int)
    };
    "ADITUP-Audit-"@ + kept + "."@ + format.extension_text()
}

pub fn report_file_name(audit_id: &str, format: ExportFormat) -> (r: String)
    ensures
        r@ == report_file_name_text(audit_id@, format),
{
    let chars = text_chars(audit_id);
    let mut name = String::from_str("ADITUP-Audit-");
    let ghost prefix = name@;
    let mut i: usize = 0;
    while i < chars.len() && i < FILE_NAME_ID_CHARS
        invariant
            chars@ == audit_id@,
            i <= chars@.len(),
            i <= FILE_NAME_ID_CHARS,
            name@ == prefix + chars@.take(i as int),
        decreases chars@.len() - i,
    {
        push_char(&mut name, chars[i]);
        assert(chars@.take(i + 1) =~= chars@.take(i as int).push(chars@[i as int]));
        i = i + 1;
    }
    if chars.len() < FILE_NAME_ID_CHARS {
        assert(chars@.take(i as int) =~= chars@);
    }
    let name = name.concat(".").concat(format.extension());
    name
}

/// What the command answers once the report is written at `file_path`: the
/// path, the requested format name lower-cased, and the format's MIME type.
pub fn export_response(file_path: String, requested: &str, format: ExportFormat) -> (r:
    ExportResult)
    ensures
        r.file_path == file_path,
        r.format@ == lowercase(requested@),
        r.mime_type@ == format.mime_text(),
{
    ExportResult {
        file_path,
        format: to_lowercase(requested),
        mime_type: String::from_str(format.mime_type()),
    }
}

} // verus!
