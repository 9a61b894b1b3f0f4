use std::path::PathBuf;

use aditup::db::observations::Observation;
use aditup::db::stage2_assessments::{RiskLevel, Stage2Assessment};
use aditup::db::stage3_matches::Stage3MatchStatus;
use aditup::desktop::export::{
    export_format_named, export_response, parse_export_format, report_file_name, ExportInput,
};
use aditup::export::csv::{quote_field, record_line, report_csv};
use aditup::export::report::{find_assessment, header_cells, row_cells, MatchSummary};
use aditup::export::xlsx::{export_xlsx, save_xlsx};
use aditup::export::{export_audit, save_report, ExportError, ExportFormat, ExportResult, ReportFile};

fn observation(id: &str, location: Option<&str>, text: &str) -> Observation {
    Observation {
        id: id.to_string(),
        audit_id: "audit-1".to_string(),
        entry_hash: String::new(),
        text: text.to_string(),
        location: location.map(|l| l.to_string()),
        created_at: "2026-07-04T10:00:00Z".to_string(),
    }
}

fn assessment(observation_id: &str, level: RiskLevel, category: Option<&str>) -> Stage2Assessment {
    Stage2Assessment {
        id: format!("a-{observation_id}"),
        observation_id: observation_id.to_string(),
        risk_level: level,
        category: category.map(|c| c.to_string()),
        department: None,
        equipment: None,
        legal_clause_id: None,
    }
}

fn matched(observation_id: &str, status: Stage3MatchStatus, final_text: Option<&str>) -> MatchSummary {
    MatchSummary {
        observation_id: observation_id.to_string(),
        status,
        bank_key: Some("fire_extinguisher".to_string()),
        score_label: Some("82.0%".to_string()),
        final_text: final_text.map(|t| t.to_string()),
    }
}

fn export_result_sample() -> ExportResult<String> {
    Ok("success".to_string())
}

#[test]
fn export_format_enum_exists() {
    let _f = ExportFormat::Xlsx;
    let _f = ExportFormat::Csv;
}

#[test]
fn export_format_xlsx_has_correct_extension() {
    assert_eq!(ExportFormat::Xlsx.extension(), "xlsx");
}

#[test]
fn export_format_csv_has_correct_extension() {
    assert_eq!(ExportFormat::Csv.extension(), "csv");
}

#[test]
fn export_format_xlsx_has_mime_type() {
    let mime = ExportFormat::Xlsx.mime_type();
    assert!(mime.contains("spreadsheet") || mime.contains("xlsx"));
}

#[test]
fn export_format_csv_has_mime_type() {
    let mime = ExportFormat::Csv.mime_type();
    assert!(mime.contains("csv"));
}

#[test]
fn export_error_displays_correctly() {
    let err = ExportError::Database("test error".to_string());
    assert_eq!(err.message(), "Database error: test error");

    let err2 = ExportError::AuditNotFound("audit-123".to_string());
    assert_eq!(err2.message(), "Audit not found: audit-123");
}

#[test]
fn export_error_messages_for_io_and_format() {
    assert_eq!(ExportError::IoError("disk full".to_string()).message(), "File I/O error: disk full");
    assert_eq!(ExportError::FormatError("bad".to_string()).message(), "Format error: bad");
}

#[test]
fn export_result_type_compiles() {
    assert!(export_result_sample().is_ok());
}

#[test]
fn export_xlsx_path_is_cloned_on_success() {
    let path = PathBuf::from("test.xlsx");
    let _: PathBuf = path;
}

#[test]
fn header_has_the_eleven_report_columns() {
    let header = header_cells();
    assert_eq!(
        header,
        vec![
            "Location",
            "Observation",
            "Risk Level",
            "Category",
            "Department",
            "Equipment",
            "Legal Clause",
            "Stage 3 Status",
            "Matched Bank Key",
            "Match Score",
            "Final Text",
        ]
    );
}

#[test]
fn row_of_an_unassessed_observation_reads_not_assessed() {
    let obs = observation("o1", None, "Blocked exit");
    let row = row_cells(&obs, &[], &[]);
    assert_eq!(row, vec!["", "Blocked exit", "", "", "", "", "", "(not assessed)", "", "", ""]);
}

#[test]
fn row_shows_the_last_assessment_and_match_listed_for_the_observation() {
    let obs = observation("o1", Some("Bay 3"), "Extinguisher seal missing");
    let assessments = vec![
        assessment("o1", RiskLevel::Low, Some("Housekeeping")),
        assessment("o2", RiskLevel::Critical, None),
        assessment("o1", RiskLevel::High, Some("Fire Protection")),
    ];
    let matches = vec![
        matched("o1", Stage3MatchStatus::Escalated, None),
        matched("o1", Stage3MatchStatus::Matched, Some("Replace the seal.")),
    ];
    let row = row_cells(&obs, &assessments, &matches);
    assert_eq!(
        row,
        vec![
            "Bay 3",
            "Extinguisher seal missing",
            "High",
            "Fire Protection",
            "",
            "",
            "",
            "Matched",
            "fire_extinguisher",
            "82.0%",
            "Replace the seal.",
        ]
    );
    assert_eq!(find_assessment(&assessments, "o1").unwrap().risk_level, RiskLevel::High);
    assert!(find_assessment(&assessments, "o3").is_none());
}

#[test]
fn csv_fields_are_quoted_only_when_needed() {
    assert_eq!(quote_field("plain"), "plain");
    assert_eq!(quote_field("a,b"), "\"a,b\"");
    assert_eq!(quote_field("say \"hi\""), "\"say \"\"hi\"\"\"");
    assert_eq!(quote_field("two\nlines"), "\"two\nlines\"");
    assert_eq!(quote_field(""), "");
    let fields = vec!["x".to_string(), "y,z".to_string(), String::new()];
    assert_eq!(record_line(&fields), "x,\"y,z\",");
}

#[test]
fn csv_report_has_a_header_and_one_record_per_observation() {
    let observations = vec![
        observation("o1", Some("Bay 3"), "Extinguisher, seal missing"),
        observation("o2", None, "Blocked exit"),
    ];
    let assessments = vec![assessment("o1", RiskLevel::Medium, Some("Fire Protection"))];
    let matches = vec![matched("o1", Stage3MatchStatus::Written, Some("Fit a \"new\" seal."))];
    let text = report_csv(&observations, &assessments, &matches);
    let expected = "Location,Observation,Risk Level,Category,Department,Equipment,Legal Clause,Stage 3 Status,Matched Bank Key,Match Score,Final Text\r\n\
Bay 3,\"Extinguisher, seal missing\",Medium,Fire Protection,,,,Written,fire_extinguisher,82.0%,\"Fit a \"\"new\"\" seal.\"\r\n\
,Blocked exit,,,,,,(not assessed),,,\r\n";
    assert_eq!(text, expected);
    match export_audit("audit-1", true, ExportFormat::Csv, &observations, &assessments, &matches) {
        Ok(ReportFile::Csv(bytes)) => {
            assert_eq!(bytes, expected.as_bytes());
            assert_eq!(save_report(ReportFile::Csv(bytes)).unwrap(), expected.as_bytes());
        },
        _ => panic!("expected a CSV report"),
    }
}

#[test]
fn xlsx_export_produces_a_zip_container() {
    let observations = vec![observation("o1", Some("Bay 3"), "Extinguisher seal missing")];
    let assessments = vec![assessment("o1", RiskLevel::High, None)];
    let bytes = save_xlsx(export_xlsx(&observations, &assessments, &[])).unwrap();
    assert!(bytes.len() > 4);
    assert_eq!(&bytes[0..2], b"PK");
    let report = export_audit("audit-1", true, ExportFormat::Xlsx, &observations, &assessments, &[]);
    assert!(matches!(report, Ok(ReportFile::Xlsx(_))));
    let again = save_report(report.ok().unwrap()).unwrap();
    assert_eq!(&again[0..2], b"PK");
}

#[test]
fn exporting_an_unknown_audit_is_audit_not_found() {
    for format in [ExportFormat::Xlsx, ExportFormat::Csv] {
        match export_audit("audit-404", false, format, &[], &[], &[]) {
            Err(e) => assert_eq!(e, ExportError::AuditNotFound("audit-404".to_string())),
            Ok(_) => panic!("expected AuditNotFound"),
        }
    }
}

#[test]
fn export_format_is_read_in_any_letter_case() {
    assert_eq!(parse_export_format("XLSX"), Ok(ExportFormat::Xlsx));
    assert_eq!(parse_export_format("Csv"), Ok(ExportFormat::Csv));
    assert_eq!(
        parse_export_format("PDF"),
        Err("unknown export format 'pdf' (supported: xlsx, csv)".to_string())
    );
    assert_eq!(
        export_format_named("docx"),
        Err("unknown export format 'docx' (supported: xlsx, csv)".to_string())
    );
}

#[test]
fn report_file_name_keeps_eight_characters_of_the_audit_id() {
    assert_eq!(
        report_file_name("0123456789abcdef", ExportFormat::Xlsx),
        "ADITUP-Audit-01234567.xlsx"
    );
    assert_eq!(report_file_name("abc", ExportFormat::Csv), "ADITUP-Audit-abc.csv");
}

#[test]
fn export_response_reports_format_and_mime_type() {
    let input = ExportInput { audit_id: "a".to_string(), format: "CSV".to_string() };
    let r = export_response("/tmp/x.csv".to_string(), &input.format, ExportFormat::Csv);
    assert_eq!(r.file_path, "/tmp/x.csv");
    assert_eq!(r.format, "csv");
    assert_eq!(r.mime_type, "text/csv");
}

#[test]
fn xlsx_rows_add_to_the_workbook() {
    let empty = save_xlsx(export_xlsx(&[], &[], &[])).unwrap();
    let observations = vec![
        observation("o1", Some("Bay 3"), "Extinguisher seal missing on the north wall"),
        observation("o2", Some("Bay 4"), "Emergency exit blocked by pallets near loading dock"),
    ];
    let full = save_xlsx(export_xlsx(&observations, &[], &[])).unwrap();
    assert!(full.len() > empty.len());
}
