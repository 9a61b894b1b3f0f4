//! Audit report export: the report table, its XLSX and CSV renderings, the
//! entry point that checks the audit and picks the format, and the step that
//! turns a report into its file's bytes.
use vstd::prelude::*;
use vstd::string::StringExecFns;

pub mod csv;
pub mod error;
pub mod formats;
pub mod report;
pub mod xlsx;

pub use error::ExportError;
pub use formats::ExportFormat;

use crate::db::observations::Observation;
use crate::db::stage2_assessments::Stage2Assessment;
use crate::export::csv::{csv_text, export_csv};
use crate::export::report::{report_table, MatchSummary};
use crate::export::xlsx::{export_xlsx, save_xlsx, table_cells, workbook_sheets};
use rust_xlsxwriter::Workbook;

verus! {

/// The result type of export operations.
pub type ExportResult<T> = Result<T, ExportError>;

/// An exported report before it is written out: a workbook, or the bytes of
/// a CSV file.
pub enum ReportFile {
    Xlsx(Workbook),
    Csv(Vec<u8>),
}

/// Exports an audit's report in the requested format, once the audit is
/// known to exist. An audit that does not exist is `AuditNotFound` with its
/// id, whatever the format.
pub fn export_audit(
    audit_id: &str,
    audit_exists: bool,
    format: ExportFormat,
    observations: &[Observation],
    assessments: &[Stage2Assessment],
    matches: &[MatchSummary],
) -> (r: ExportResult<ReportFile>)
    requires
        observations@.len() < u32::MAX,
    ensures
        !audit_exists ==> (r matches Err(ExportError::AuditNotFound(id)) && id@ == audit_id@),
        audit_exists && format == ExportFormat::Csv ==> (r matches Ok(ReportFile::Csv(bytes))
            && bytes@ == vstd::utf8::encode_utf8(
            csv_text(report_table(observations@, assessments@, matches@)),
        )),
        audit_exists && format == ExportFormat::Xlsx ==> (r matches Ok(ReportFile::Xlsx(wb))
            && workbook_sheets(wb) == seq![
            table_cells(
                report_table(observations@, assessments@, matches@),
                observations@.len() + 1int,
            ),
        ]),
{
    if !audit_exists {
        return Err(ExportError::AuditNotFound(String::from_str(audit_id)));
    }
    match format {
        ExportFormat::Xlsx => Ok(ReportFile::Xlsx(export_xlsx(observations, assessments, matches))),
        ExportFormat::Csv => match export_csv(observations, assessments, matches) {
            Ok(bytes) => Ok(ReportFile::Csv(bytes)),
            Err(e) => Err(e),
        },
    }
}

/// The bytes of a report's file: a CSV report's bytes as they are, a
/// workbook assembled into an xlsx file (an `IoError` if that fails).
pub fn save_report(report: ReportFile) -> (r: ExportResult<Vec<u8>>)
    ensures
        report matches ReportFile::Csv(bytes) ==> (r matches Ok(b) && b@ == bytes@),
        report is Xlsx ==> (r matches Err(e) ==> e is IoError),
{
    match report {
        ReportFile::Xlsx(wb) => save_xlsx(wb),
        ReportFile::Csv(bytes) => Ok(bytes),
    }
}

} // verus!
