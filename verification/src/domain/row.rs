//! Rows as the engine sees them: named cells that hold typed values.

use crate::text::optional_text;
use vstd::prelude::*;

verus! {

/// An instant: whole seconds since the Unix epoch and the nanoseconds
/// within the second.
#[derive(Debug, Clone, Copy, PartialEq, Eq, Structural)]
pub struct Timestamp {
    pub secs: i64,
    pub nanos: u32,
}

/// A calendar day, counted in days from December 31, 1 BCE.
#[derive(Debug, Clone, Copy, PartialEq, Eq, Structural)]
pub struct CalendarDate {
    pub days_from_ce: i32,
}

/// The value of one cell. Each case stands for one kind of column; `None`
/// inside it is the database's NULL.
#[derive(Debug, Clone, PartialEq, Eq)]
pub enum CellValue {
    Int8(Option<i64>),
    Int4(Option<i32>),
    Varchar(Option<String>),
    Bool(Option<bool>),
    Timestamp(Option<Timestamp>),
    /// The exact text of an arbitrary-precision number.
    Numeric(Option<String>),
    Text(Option<String>),
    Date(Option<CalendarDate>),
    /// A column whose type the engine does not know.
    Unknown,
}

/// What a [`CellValue`] holds, with texts as sequences.
pub enum CellValueView {
    Int8(Option<i64>),
    Int4(Option<i32>),
    Varchar(Option<Seq<char>>),
    Bool(Option<bool>),
    Timestamp(Option<Timestamp>),
    Numeric(Option<Seq<char>>),
    Text(Option<Seq<char>>),
    Date(Option<CalendarDate>),
    Unknown,
}

impl View for CellValue {
    type V = CellValueView;

    open spec fn view(&self) -> CellValueView {
        match *self {
            CellValue::Int8(v) => CellValueView::Int8(v),
            CellValue::Int4(v) => CellValueView::Int4(v),
            CellValue::Varchar(v) => CellValueView::Varchar(optional_text(v)),
            CellValue::Bool(v) => CellValueView::Bool(v),
            CellValue::Timestamp(v) => CellValueView::Timestamp(v),
            CellValue::Numeric(v) => CellValueView::Numeric(optional_text(v)),
            CellValue::Text(v) => CellValueView::Text(optional_text(v)),
            CellValue::Date(v) => CellValueView::Date(v),
            CellValue::Unknown => CellValueView::Unknown,
        }
    }
}

/// One cell of a row: the column's name and the value under it.
#[derive(Debug, Clone, PartialEq, Eq)]
pub struct Cell {
    pub name: String,
    pub value: CellValue,
}

/// What a [`Cell`] holds.
pub struct CellView {
    pub name: Seq<char>,
    pub value: CellValueView,
}

impl View for Cell {
    type V = CellView;

    open spec fn view(&self) -> CellView {
        CellView { name: self.name@, value: self.value@ }
    }
}

/// A row: its cells in the order in which the database delivered them.
#[derive(Debug, Clone, PartialEq, Eq)]
pub struct Row {
    pub cells: Vec<Cell>,
}

impl View for Row {
    type V = Seq<CellView>;

    open spec fn view(&self) -> Seq<CellView> {
        self.cells@.map_values(|c: Cell| c@)
    }
}

/// The views of a list of rows.
pub open spec fn row_views(rows: Seq<Row>) -> Seq<Seq<CellView>> {
    rows.map_values(|r: Row| r@)
}

/// What is written into a statement for one cell: the NULL marker, or a
/// text. The marker is a case of its own, so no text can be taken for it.
#[derive(Debug, Clone, PartialEq, Eq)]
pub enum Literal {
    Null,
    Value(String),
}

/// What a [`Literal`] holds.
pub enum LiteralView {
    Null,
    Value(Seq<char>),
}

impl View for Literal {
    type V = LiteralView;

    open spec fn view(&self) -> LiteralView {
        match *self {
            Literal::Null => LiteralView::Null,
            Literal::Value(s) => LiteralView::Value(s@),
        }
    }
}

} // verus!
