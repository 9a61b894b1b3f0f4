//! Failure modes of report export.
use vstd::prelude::*;
use vstd::string::StringExecFns;

verus! {

#[derive(Debug, Clone, PartialEq)]
pub enum ExportError {
    AuditNotFound(String),
    Database(String),
    IoError(String),
    FormatError(String),
}

/// The message an export error is shown with.
pub open spec fn export_error_text(e: ExportError) -> Seq<char> {
    match e {
        ExportError::AuditNotFound(s) => "Audit not found: "@ + s@,
        ExportError::Database(s) => "Database error: "@ + s@,
        ExportError::IoError(s) => "File I/O error: "@ + s@,
        ExportError::FormatError(s) => "Format error: "@ + s@,
    }
}

impl ExportError {
    /// The message this error is shown with.
    pub fn message(&self) -> (r: String)
        ensures
            r@ == export_error_text(*self),
    {
        match self {
            ExportError::AuditNotFound(s) => String::from_str("Audit not found: ").concat(
                s.as_str(),
            ),
            ExportError::Database(s) => String::from_str("Database error: ").concat(s.as_str()),
            ExportError::IoError(s) => String::from_str("File I/O error: ").concat(s.as_str()),
            ExportError::FormatError(s) => String::from_str("Format error: ").concat(s.as_str()),
        }
    }
}

} // verus!
