//! The report as an Excel workbook, built with `rust_xlsxwriter`.
use vstd::prelude::*;

use rust_xlsxwriter::{Workbook, Worksheet, XlsxError};

use crate::db::observations::Observation;
use crate::db::stage2_assessments::Stage2Assessment;
use crate::export::error::ExportError;
use crate::export::report::{
    header_cells, header_labels, observation_row, report_table, row_cells, MatchSummary,
    REPORT_COLUMNS,
};
use crate::export::ExportResult;
use crate::text::texts;

verus! {

#[verifier::external_type_specification]
#[verifier::external_body]
pub struct ExWorksheet(rust_xlsxwriter::Worksheet);

#[verifier::external_type_specification]
#[verifier::external_body]
pub struct ExWorkbook(rust_xlsxwriter::Workbook);

#[verifier::external_type_specification]
#[verifier::external_body]
pub struct ExXlsxError(rust_xlsxwriter::XlsxError);

/// The text cells a worksheet holds, by row and column.
pub uninterp spec fn sheet_cells(ws: Worksheet) -> Map<(u32, u16), Seq<char>>;

/// The widths set on a worksheet's columns, in character units.
pub uninterp spec fn sheet_column_widths(ws: Worksheet) -> Map<u16, u16>;

/// The text cells of each worksheet of a workbook, in the order the sheets
/// were added.
pub uninterp spec fn workbook_sheets(wb: Workbook) -> Seq<Map<(u32, u16), Seq<char>>>;

/// Rows a worksheet has.
pub const SHEET_ROWS: u32 = 1_048_576;

/// Columns a worksheet has.
pub const SHEET_COLUMNS: u16 = 16_384;

/// The most characters a cell holds.
pub const MAX_CELL_CHARS: usize = 32_767;

/// Whether writing this text at this row and column stores a cell: an empty
/// text is skipped, and one outside the sheet or too long is refused.
pub open spec fn cell_stored(row: u32, col: u16, text: Seq<char>) -> bool {
    &&& text.len() > 0
    &&& row < SHEET_ROWS
    &&& col < SHEET_COLUMNS
    &&& text.len() <= MAX_CELL_CHARS
}

/// Calls `Worksheet::new`: a sheet with no cells and no column widths set.
#[verifier::external_body]
fn new_sheet() -> (ws: Worksheet)
    ensures
        sheet_cells(ws).dom() == Set::<(u32, u16)>::empty(),
        sheet_column_widths(ws).dom() == Set::<u16>::empty(),
{
    Worksheet::new()
}

/// Calls `Worksheet::write_string`. An empty text is skipped and succeeds; a
/// cell outside the sheet, or a text of more than 32,767 characters, is
/// refused and leaves the cells as they were; any other text is stored at
/// that cell, replacing what was there. Column widths are untouched.
#[verifier::external_body]
fn write_text(ws: &mut Worksheet, row: u32, col: u16, text: &str) -> (r: Result<(), XlsxError>)
    ensures
        r is Ok <==> (text@.len() == 0 || (row < SHEET_ROWS && col < SHEET_COLUMNS
            && text@.len() <= MAX_CELL_CHARS)),
        sheet_cells(*final(ws)) == if cell_stored(row, col, text@) {
            sheet_cells(*old(ws)).insert((row, col), text@)
        } else {
            sheet_cells(*old(ws))
        },
        sheet_column_widths(*final(ws)) == sheet_column_widths(*old(ws)),
{
    match ws.write_string(row, col, text) {
        Ok(_) => Ok(()),
        Err(e) => Err(e),
    }
}

/// Calls `Worksheet::set_column_width` with a whole, non-zero width of at
/// most 255 (the widest Excel allows): it records the width of a column
/// inside the sheet and refuses one outside it. The cells are untouched.
#[verifier::external_body]
fn set_width(ws: &mut Worksheet, col: u16, width: u16) -> (r: Result<(), XlsxError>)
    requires
        0 < width <= 255,
    ensures
        r is Ok <==> col < SHEET_COLUMNS,
        sheet_column_widths(*final(ws)) == if col < SHEET_COLUMNS {
            sheet_column_widths(*old(ws)).insert(col, width)
        } else {
            sheet_column_widths(*old(ws))
        },
        sheet_cells(*final(ws)) == sheet_cells(*old(ws)),
{
    match ws.set_column_width(col, width) {
        Ok(_) => Ok(()),
        Err(e) => Err(e),
    }
}

/// Calls `Workbook::new`: a workbook with no worksheets.
#[verifier::external_body]
fn new_workbook() -> (wb: Workbook)
    ensures
        workbook_sheets(wb).len() == 0,
{
    Workbook::new()
}

/// Calls `Workbook::push_worksheet`, which appends the sheet, with its cells
/// as they are, to the workbook's sheets (naming it after its position when
/// it has no name).
#[verifier::external_body]
fn add_sheet(wb: &mut Workbook, ws: Worksheet)
    ensures
        workbook_sheets(*final(wb)) == workbook_sheets(*old(wb)).push(sheet_cells(ws)),
{
    wb.push_worksheet(ws)
}

/// Calls `Workbook::save_to_buffer`, which assembles the xlsx file in memory.
/// The file records when the workbook was created, so nothing is stated of
/// the bytes.
#[verifier::external_body]
fn save_workbook(wb: &mut Workbook) -> Result<Vec<u8>, XlsxError> {
    wb.save_to_buffer()
}

/// Calls `XlsxError`'s `to_string`; nothing is stated of the message.
#[verifier::external_body]
fn xlsx_error_text(e: &XlsxError) -> String {
    e.to_string()
}

/// The cells of row `row` once the first `n` of `row_texts` have been written
/// across it from the first column.
pub open spec fn row_written(row: u32, row_texts: Seq<Seq<char>>, n: int) -> Map<
    (u32, u16),
    Seq<char>,
> {
    Map::new(
        |k: (u32, u16)| k.0 == row && k.1 < n && cell_stored(row, k.1, row_texts[k.1 as int]),
        |k: (u32, u16)| row_texts[k.1 as int],
    )
}

/// The cells a sheet holds once the first `n` rows of `table` have been
/// written, each from the first row and column.
pub open spec fn table_cells(table: Seq<Seq<Seq<char>>>, n: int) -> Map<(u32, u16), Seq<char>> {
    Map::new(
        |k: (u32, u16)|
            k.0 < n && k.1 < table[k.0 as int].len() && cell_stored(
                k.0,
                k.1,
                table[k.0 as int][k.1 as int],
            ),
        |k: (u32, u16)| table[k.0 as int][k.1 as int],
    )
}

/// The column widths of the report: 20 for the location, 40 for the
/// observation, 15 for the risk level and 18 for the rest.
pub open spec fn report_column_widths() -> Map<u16, u16> {
    Map::new(
        |c: u16| c <= 10,
        |c: u16|
            if c == 0 {
                20u16
            } else if c == 1 {
                40u16
            } else if c == 2 {
                15u16
            } else {
                18u16
            },
    )
}

/// Writes the texts across one row, from the first column; what a cell
/// refuses is left out, as `write_text` says.
fn write_row(ws: &mut Worksheet, row: u32, cells: &Vec<String>)
    requires
        cells@.len() <= REPORT_COLUMNS,
    ensures
        sheet_cells(*final(ws)) == sheet_cells(*old(ws)).union_prefer_right(
            row_written(row, texts(cells@), cells@.len() as int),
        ),
        sheet_column_widths(*final(ws)) == sheet_column_widths(*old(ws)),
{
    let ghost start = sheet_cells(*ws);
    let ghost widths = sheet_column_widths(*ws);
    let ghost t = texts(cells@);
    let mut col: usize = 0;
    assert(start.union_prefer_right(row_written(row, t, 0)) =~= start);
    while col < cells.len()
        invariant
            cells@.len() <= REPORT_COLUMNS,
            col <= cells@.len(),
            t == texts(cells@),
            sheet_cells(*ws) == start.union_prefer_right(row_written(row, t, col as int)),
            sheet_column_widths(*ws) == widths,
        decreases cells@.len() - col,
    {
        let c: u16 = col as u16;
        let _ = write_text(ws, row, c, cells[col].as_str());
        assert(sheet_cells(*ws) =~= start.union_prefer_right(
            row_written(row, t, col + 1),
        ));
        col = col + 1;
    }
}

/// The report's worksheet: the header in the first row, each observation's
/// row below it in order, and the report's column widths. Like any sheet
/// write, a text of more than 32,767 characters, or a row past the sheet's
/// last, is left out, and empty texts leave their cells empty.
pub fn report_sheet(
    observations: &[Observation],
    assessments: &[Stage2Assessment],
    matches: &[MatchSummary],
) -> (ws: Worksheet)
    requires
        observations@.len() < u32::MAX,
    ensures
        sheet_cells(ws) == table_cells(
            report_table(observations@, assessments@, matches@),
            observations@.len() + 1int,
        ),
        sheet_column_widths(ws) == report_column_widths(),
{
    let ghost table = report_table(observations@, assessments@, matches@);
    let mut ws = new_sheet();
    let header = header_cells();
    write_row(&mut ws, 0, &header);
    assert(table[0] == header_labels());
    assert(sheet_cells(ws) =~= table_cells(table, 1));

    let _ = set_width(&mut ws, 0, 20);
    let _ = set_width(&mut ws, 1, 40);
    let _ = set_width(&mut ws, 2, 15);
    let mut c: u16 = 3;
    while c <= 10
        invariant
            3 <= c <= 11,
            sheet_cells(ws) == table_cells(table, 1),
            sheet_column_widths(ws) == Map::new(
                |x: u16| x < c,
                |x: u16|
                    if x == 0 {
                        20u16
                    } else if x == 1 {
                        40u16
                    } else if x == 2 {
                        15u16
                    } else {
                        18u16
                    },
            ),
        decreases 11 - c,
    {
        let _ = set_width(&mut ws, c, 18);
        c = c + 1;
        assert(sheet_column_widths(ws) =~= Map::new(
            |x: u16| x < c,
            |x: u16|
                if x == 0 {
                    20u16
                } else if x == 1 {
                    40u16
                } else if x == 2 {
                    15u16
                } else {
                    18u16
                },
        ));
    }
    assert(sheet_column_widths(ws) =~= report_column_widths());

    let mut i: usize = 0;
    let mut row: u32 = 1;
    while i < observations.len()
        invariant
            observations@.len() < u32::MAX,
            i <= observations@.len(),
            row == i + 1,
            table == report_table(observations@, assessments@, matches@),
            sheet_cells(ws) == table_cells(table, row as int),
            sheet_column_widths(ws) == report_column_widths(),
        decreases observations@.len() - i,
    {
        let cells = row_cells(&observations[i], assessments, matches);
        assert(texts(cells@) == table[row as int]) by {
            assert(table[row as int] == observation_row(
                observations@,
                assessments@,
                matches@,
                i as int,
            ));
        }
        write_row(&mut ws, row, &cells);
        assert(sheet_cells(ws) =~= table_cells(table, row + 1));
        i = i + 1;
        row = row + 1;
    }
    ws
}

/// The report as a workbook holding one worksheet, the report's.
pub fn export_xlsx(
    observations: &[Observation],
    assessments: &[Stage2Assessment],
    matches: &[MatchSummary],
) -> (wb: Workbook)
    requires
        observations@.len() < u32::MAX,
    ensures
        workbook_sheets(wb) == seq![
            table_cells(
                report_table(observations@, assessments@, matches@),
                observations@.len() + 1int,
            ),
        ],
{
    let sheet = report_sheet(observations, assessments, matches);
    let ghost cells = sheet_cells(sheet);
    let mut workbook = new_workbook();
    add_sheet(&mut workbook, sheet);
    assert(workbook_sheets(workbook) =~= seq![cells]);
    workbook
}

/// The bytes of the xlsx file of a workbook; a workbook that cannot be
/// assembled is an `IoError`.
pub fn save_xlsx(wb: Workbook) -> (r: ExportResult<Vec<u8>>)
    ensures
        r matches Err(e) ==> e is IoError,
{
    let mut workbook = wb;
    match save_workbook(&mut workbook) {
        Ok(bytes) => Ok(bytes),
        Err(e) => Err(ExportError::IoError(xlsx_error_text(&e))),
    }
}

} // verus!
