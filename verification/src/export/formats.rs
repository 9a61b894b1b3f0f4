//! The report formats and how each is named and served.
use vstd::prelude::*;

verus! {

#[derive(Debug, Clone, Copy, PartialEq, Eq, Structural)]
pub enum ExportFormat {
    Xlsx,
    Csv,
}

impl ExportFormat {
    /// The file extension of the format, without the dot.
    pub open spec fn extension_text(self) -> Seq<char> {
        match self {
            ExportFormat::Xlsx => "xlsx"@,
            ExportFormat::Csv => "csv"@,
        }
    }

    /// The MIME type a report of the format is served with.
    pub open spec fn mime_text(self) -> Seq<char> {
        match self {
            ExportFormat::Xlsx => "application/vnd.openxmlformats-officedocument.spreadsheetml.sheet"@,
            ExportFormat::Csv => "text/csv"@,
        }
    }

    pub fn extension(&self) -> (s: &'static str)
        ensures
            s@ == self.extension_text(),
    {
        match self {
            ExportFormat::Xlsx => "xlsx",
            ExportFormat::Csv => "csv",
        }
    }

    pub fn mime_type(&self) -> (s: &'static str)
        ensures
            s@ == self.mime_text(),
    {
        match self {
            ExportFormat::Xlsx => "application/vnd.openxmlformats-officedocument.spreadsheetml.sheet",
            ExportFormat::Csv => "text/csv",
        }
    }
}

} // verus!
