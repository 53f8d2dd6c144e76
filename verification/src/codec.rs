//! The type codec: from a column's declared type to the kind of its values,
//! and from a cell to the literal that stands for it in a statement.

use crate::calendar::{calendar_date_of, calendar_date_text, rfc3339_of, rfc3339_text};
use crate::domain::row::{Cell, CellValue, CellValueView, CellView, Literal, LiteralView, Row};
use crate::collect::{collect, lemma_collect_error_stays, lemma_collect_next};
use crate::text::{decimal_text, i64_to_decimal, str_eq, views};
use vstd::prelude::*;
use vstd::string::*;

verus! {

/// The kinds of column that the codec tells apart.
#[derive(Debug, Clone, Copy, PartialEq, Eq, Structural)]
pub enum ColumnKind {
    Int8,
    Int4,
    Varchar,
    Bool,
    Timestamp,
    Numeric,
    Text,
    Date,
    Unknown,
}

/// Why a cell could not be turned into a literal.
#[derive(Debug, Clone, Copy, PartialEq, Eq, Structural)]
pub enum CodecError {
    /// The row has no cell under the column's name.
    MissingColumn,
    /// The cell holds an instant or a day that cannot be written out.
    OutOfRange,
    /// The row has no integer under `id` by which it could be found again.
    MissingId,
}

/// The kind that a declared type tag stands for.
pub open spec fn kind_of_tag(tag: Seq<char>) -> ColumnKind {
    if tag == "int8"@ {
        ColumnKind::Int8
    } else if tag == "int4"@ {
        ColumnKind::Int4
    } else if tag == "varchar"@ {
        ColumnKind::Varchar
    } else if tag == "bool"@ {
        ColumnKind::Bool
    } else if tag == "timestamp"@ {
        ColumnKind::Timestamp
    } else if tag == "numeric"@ {
        ColumnKind::Numeric
    } else if tag == "text"@ {
        ColumnKind::Text
    } else if tag == "date"@ {
        ColumnKind::Date
    } else {
        ColumnKind::Unknown
    }
}

/// Classifies a declared type tag.
pub fn column_kind(tag: &str) -> (kind: ColumnKind)
    ensures
        kind == kind_of_tag(tag@),
{
    if str_eq(tag, "int8") {
        ColumnKind::Int8
    } else if str_eq(tag, "int4") {
        ColumnKind::Int4
    } else if str_eq(tag, "varchar") {
        ColumnKind::Varchar
    } else if str_eq(tag, "bool") {
        ColumnKind::Bool
    } else if str_eq(tag, "timestamp") {
        ColumnKind::Timestamp
    } else if str_eq(tag, "numeric") {
        ColumnKind::Numeric
    } else if str_eq(tag, "text") {
        ColumnKind::Text
    } else if str_eq(tag, "date") {
        ColumnKind::Date
    } else {
        ColumnKind::Unknown
    }
}

/// The literal of an optional text: the text itself, unchanged.
pub open spec fn text_literal(text: Option<Seq<char>>) -> LiteralView {
    match text {
        Some(s) => LiteralView::Value(s),
        None => LiteralView::Null,
    }
}

/// The literal of a named calendar text; `None` where there is no text.
pub open spec fn calendar_literal(text: Option<Seq<char>>) -> Option<LiteralView> {
    match text {
        Some(s) => Some(LiteralView::Value(s)),
        None => None,
    }
}

/// The literal that stands for a value: the NULL marker for an absent one,
/// else the decimal text of an integer, `true` or `false`, the RFC 3339
/// text of an instant, the calendar text of a day, a text as it is, and
/// `Unknown` for a column of unknown type. `None` where an instant or a day
/// cannot be written out.
pub open spec fn literal_of(value: CellValueView) -> Option<LiteralView> {
    match value {
        CellValueView::Int8(Some(v)) => Some(LiteralView::Value(decimal_text(v as int))),
        CellValueView::Int4(Some(v)) => Some(LiteralView::Value(decimal_text(v as int))),
        CellValueView::Bool(Some(v)) => Some(
            LiteralView::Value(
                if v {
                    "true"@
                } else {
                    "false"@
                },
            ),
        ),
        CellValueView::Varchar(v) => Some(text_literal(v)),
        CellValueView::Numeric(v) => Some(text_literal(v)),
        CellValueView::Text(v) => Some(text_literal(v)),
        CellValueView::Timestamp(Some(t)) => calendar_literal(rfc3339_text(t.secs, t.nanos)),
        CellValueView::Date(Some(d)) => calendar_literal(calendar_date_text(d.days_from_ce)),
        CellValueView::Unknown => Some(LiteralView::Value("Unknown"@)),
        _ => Some(LiteralView::Null),
    }
}

/// Whether `literal` is what `expected` asks for.
pub open spec fn literal_is(literal: Result<Literal, CodecError>, expected: Option<LiteralView>) -> bool {
    match literal {
        Ok(l) => expected == Some(l@),
        Err(e) => expected is None && e == CodecError::OutOfRange,
    }
}

fn literal_of_text(text: &Option<String>) -> (literal: Literal)
    ensures
        literal@ == text_literal(crate::text::optional_text(*text)),
{
    match text {
        Some(s) => Literal::Value(s.clone()),
        None => Literal::Null,
    }
}

/// Takes the text that a calendar call produced for a value that is
/// present. No text means that the value cannot be written out.
pub fn literal_of_calendar_text(text: Option<String>) -> (literal: Result<Literal, CodecError>)
    ensures
        literal_is(literal, calendar_literal(crate::text::optional_text(text))),
{
    match text {
        Some(s) => Ok(Literal::Value(s)),
        None => Err(CodecError::OutOfRange),
    }
}

/// Serializes one value.
pub fn literal(value: &CellValue) -> (literal: Result<Literal, CodecError>)
    ensures
        literal_is(literal, literal_of(value@)),
{
    match value {
        CellValue::Int8(Some(v)) => Ok(Literal::Value(i64_to_decimal(*v))),
        CellValue::Int4(Some(v)) => {
            let wide: i64 = *v as i64;
            Ok(Literal::Value(i64_to_decimal(wide)))
        },
        CellValue::Bool(Some(v)) => {
            if *v {
                Ok(Literal::Value("true".to_owned()))
            } else {
                Ok(Literal::Value("false".to_owned()))
            }
        },
        CellValue::Varchar(v) => Ok(literal_of_text(v)),
        CellValue::Numeric(v) => Ok(literal_of_text(v)),
        CellValue::Text(v) => Ok(literal_of_text(v)),
        CellValue::Timestamp(Some(t)) => literal_of_calendar_text(rfc3339_of(t.secs, t.nanos)),
        CellValue::Date(Some(d)) => literal_of_calendar_text(calendar_date_of(d.days_from_ce)),
        CellValue::Unknown => Ok(Literal::Value("Unknown".to_owned())),
        _ => Ok(Literal::Null),
    }
}

/// The first cell of `row` under `name`.
pub open spec fn find_cell(row: Seq<CellView>, name: Seq<char>) -> Option<CellView>
    decreases row.len(),
{
    if row.len() == 0 {
        None
    } else if row[0].name == name {
        Some(row[0])
    } else {
        find_cell(row.drop_first(), name)
    }
}

/// The literal of the cell of `row` under `name`: an error where the row
/// has no such cell, or where its value cannot be written out.
pub open spec fn cell_literal(row: Seq<CellView>, name: Seq<char>) -> Result<LiteralView, CodecError> {
    match find_cell(row, name) {
        None => Err(CodecError::MissingColumn),
        Some(cell) => match literal_of(cell.value) {
            Some(l) => Ok(l),
            None => Err(CodecError::OutOfRange),
        },
    }
}

/// Whether `literal` is what `expected` asks for.
pub open spec fn literal_matches(
    literal: Result<Literal, CodecError>,
    expected: Result<LiteralView, CodecError>,
) -> bool {
    match literal {
        Ok(l) => expected == Ok::<LiteralView, CodecError>(l@),
        Err(e) => expected == Err::<LiteralView, CodecError>(e),
    }
}

/// Finds the first cell of `row` under `name`.
pub fn cell_by_name<'a>(row: &'a Row, name: &str) -> (cell: Option<&'a Cell>)
    ensures
        match cell {
            Some(c) => find_cell(row@, name@) == Some(c@),
            None => find_cell(row@, name@) is None,
        },
{
    let mut i: usize = 0;
    assert(row@.skip(0) == row@);
    while i < row.cells.len()
        invariant
            i <= row.cells.len(),
            find_cell(row@, name@) == find_cell(row@.skip(i as int), name@),
        decreases row.cells.len() - i,
    {
        assert(row@.skip(i as int)[0] == row.cells@[i as int]@);
        assert(row@.skip(i as int).drop_first() == row@.skip(i as int + 1));
        if str_eq(row.cells[i].name.as_str(), name) {
            return Some(&row.cells[i]);
        }
        i += 1;
    }
    None
}

/// Serializes the cell of `row` under `column_name`.
pub fn get_cell_value_by_column_name(row: &Row, column_name: &str) -> (literal: Result<
    Literal,
    CodecError,
>)
    ensures
        literal_matches(literal, cell_literal(row@, column_name@)),
{
    match cell_by_name(row, column_name) {
        None => Err(CodecError::MissingColumn),
        Some(cell) => literal(&cell.value),
    }
}

/// How a value is shown when rows are compared: an absent integer as `0`,
/// an absent text as `None`, an absent truth value as `false`, an instant
/// by its seconds since the epoch and an absent one as `0`, an absent day
/// as the day of the epoch. Arbitrary-precision numbers and long texts are
/// not shown but as `Unknown`. `None` where a day cannot be written out.
pub open spec fn shown_value(value: CellValueView) -> Option<Seq<char>> {
    match value {
        CellValueView::Int8(Some(v)) => Some(decimal_text(v as int)),
        CellValueView::Int8(None) => Some(decimal_text(0)),
        CellValueView::Int4(Some(v)) => Some(decimal_text(v as int)),
        CellValueView::Int4(None) => Some(decimal_text(0)),
        CellValueView::Varchar(Some(s)) => Some(s),
        CellValueView::Varchar(None) => Some("None"@),
        CellValueView::Bool(Some(true)) => Some("true"@),
        CellValueView::Bool(_) => Some("false"@),
        CellValueView::Timestamp(Some(t)) => Some(decimal_text(t.secs as int)),
        CellValueView::Timestamp(None) => Some(decimal_text(0)),
        CellValueView::Date(Some(d)) => calendar_date_text(d.days_from_ce),
        CellValueView::Date(None) => Some("1970-01-01"@),
        _ => Some("Unknown"@),
    }
}

/// How a cell is shown: its name, a colon and a space, and its value.
pub open spec fn shown_cell(cell: CellView) -> Result<Seq<char>, CodecError> {
    match shown_value(cell.value) {
        Some(text) => Ok(cell.name + ": "@ + text),
        None => Err(CodecError::OutOfRange),
    }
}

/// How each cell is shown.
pub open spec fn shown() -> spec_fn(CellView) -> Result<Seq<char>, CodecError> {
    |cell: CellView| shown_cell(cell)
}

/// How the cells of a row are shown, in their order.
pub open spec fn shown_cells(row: Seq<CellView>) -> Result<Seq<Seq<char>>, CodecError> {
    collect(row, shown())
}

/// Whether `texts` are what `expected` asks for.
pub open spec fn shown_as(texts: Result<Vec<String>, CodecError>, expected: Result<
    Seq<Seq<char>>,
    CodecError,
>) -> bool {
    match texts {
        Ok(v) => expected == Ok::<Seq<Seq<char>>, CodecError>(views(v@)),
        Err(e) => expected == Err::<Seq<Seq<char>>, CodecError>(e),
    }
}

/// Takes the text that the calendar produced for a day that is shown.
pub fn shown_calendar_text(text: Option<String>) -> (shown: Result<String, CodecError>)
    ensures
        match shown {
            Ok(s) => crate::text::optional_text(text) == Some(s@),
            Err(e) => text is None && e == CodecError::OutOfRange,
        },
{
    match text {
        Some(s) => Ok(s),
        None => Err(CodecError::OutOfRange),
    }
}

fn show_value(value: &CellValue) -> (text: Result<String, CodecError>)
    ensures
        match text {
            Ok(s) => shown_value(value@) == Some(s@),
            Err(e) => shown_value(value@) is None && e == CodecError::OutOfRange,
        },
{
    match value {
        CellValue::Int8(Some(v)) => Ok(i64_to_decimal(*v)),
        CellValue::Int8(None) => Ok(i64_to_decimal(0)),
        CellValue::Int4(Some(v)) => {
            let wide: i64 = *v as i64;
            Ok(i64_to_decimal(wide))
        },
        CellValue::Int4(None) => Ok(i64_to_decimal(0)),
        CellValue::Varchar(Some(s)) => Ok(s.clone()),
        CellValue::Varchar(None) => Ok("None".to_owned()),
        CellValue::Bool(Some(true)) => Ok("true".to_owned()),
        CellValue::Bool(_) => Ok("false".to_owned()),
        CellValue::Timestamp(Some(t)) => Ok(i64_to_decimal(t.secs)),
        CellValue::Timestamp(None) => Ok(i64_to_decimal(0)),
        CellValue::Date(Some(d)) => shown_calendar_text(calendar_date_of(d.days_from_ce)),
        CellValue::Date(None) => Ok("1970-01-01".to_owned()),
        _ => Ok("Unknown".to_owned()),
    }
}

/// Shows the cells of a row, each as its name and its value, for rows to
/// be compared by what they show.
pub fn get_cells(row: &Row) -> (cells: Result<Vec<String>, CodecError>)
    ensures
        shown_as(cells, shown_cells(row@)),
{
    let mut cells: Vec<String> = Vec::new();
    let mut i: usize = 0;
    assert(views(cells@) =~= Seq::<Seq<char>>::empty());
    while i < row.cells.len()
        invariant
            i <= row.cells.len(),
            collect(row@.take(i as int), shown()) == Ok::<Seq<Seq<char>>, CodecError>(views(cells@)),
        decreases row.cells.len() - i,
    {
        proof {
            lemma_collect_next(row@, shown(), i as int);
            assert(row@[i as int] == row.cells@[i as int]@);
        }
        match show_value(&row.cells[i].value) {
            Ok(value) => {
                let ghost before = views(cells@);
                let mut text = row.cells[i].name.clone();
                text.append(": ");
                text.append(value.as_str());
                cells.push(text);
                assert(views(cells@) =~= before.push(text@));
            },
            Err(e) => {
                proof {
                    lemma_collect_error_stays(row@, shown(), i as int + 1);
                }
                return Err(e);
            },
        }
        i += 1;
    }
    assert(row@.take(row.cells.len() as int) == row@);
    Ok(cells)
}

/// The integer that stands under `id` in a row, if one does.
pub open spec fn id_of(row: Seq<CellView>) -> Option<i64> {
    match find_cell(row, "id"@) {
        Some(cell) => match cell.value {
            CellValueView::Int8(Some(id)) => Some(id),
            _ => None,
        },
        None => None,
    }
}

/// Reads the integer under `id` by which a row is found again.
pub fn row_id(row: &Row) -> (id: Option<i64>)
    ensures
        id == id_of(row@),
{
    match cell_by_name(row, "id") {
        Some(cell) => match &cell.value {
            CellValue::Int8(Some(id)) => Some(*id),
            _ => None,
        },
        None => None,
    }
}

} // verus!
