//! Tables, columns and rows, made ready for display.

use crate::adapters::presenters::knowledge_presenter::{status_of, status_text};
use crate::domain::table::{ExportComplexityType, Table, TableType, TableView, BASE_TABLE_STR};
use crate::domain::two_column::{TwoColumn, TwoColumnView};
use crate::text::{duplicate_strings, views};
use vstd::prelude::*;
use vstd::string::*;

verus! {

/// View model for a table.
#[derive(Debug, Clone, PartialEq, Eq)]
pub struct TableViewModel {
    pub id: i64,
    pub name: String,
    pub table_type: String,
    pub export_complexity_type: String,
    pub database: String,
    pub export_order: i64,
    pub is_self_referencing: bool,
    pub self_referencing_column: String,
    pub row_count: i64,
    pub is_exported: bool,
    pub status: String,
}

/// View model for a column.
#[derive(Debug, Clone, PartialEq, Eq)]
pub struct ColumnViewModel {
    pub name: String,
    pub data_type: String,
}

/// View model for a row.
#[derive(Debug, Clone, PartialEq, Eq)]
pub struct RowViewModel {
    pub values: Vec<String>,
}

/// Presenter for formatting table-related data for display.
pub struct TablePresenter;

/// The name of a table type.
pub open spec fn table_type_name(table_type: TableType) -> Seq<char> {
    match table_type {
        TableType::BaseTable => BASE_TABLE_STR@,
        TableType::VIEW => "VIEW"@,
    }
}

/// The name of an export complexity.
pub open spec fn complexity_name(complexity: ExportComplexityType) -> Seq<char> {
    match complexity {
        ExportComplexityType::SIMPLE => "SIMPLE"@,
        ExportComplexityType::COMPLEX => "COMPLEX"@,
    }
}

/// Whether `model` shows `table`: every field as the table has it, the
/// type and the complexity by their names, and the status that goes with
/// the export flag.
pub open spec fn shows_table(model: TableViewModel, table: TableView) -> bool {
    &&& model.id == table.id
    &&& model.name@ == table.name
    &&& model.table_type@ == table_type_name(table.table_type)
    &&& model.export_complexity_type@ == complexity_name(table.export_complexity_type)
    &&& model.database@ == table.database
    &&& model.export_order == table.export_order
    &&& model.is_self_referencing == table.is_self_referencing
    &&& model.self_referencing_column@ == table.self_referencing_column
    &&& model.row_count == table.row_count
    &&& model.is_exported == table.is_exported
    &&& model.status@ == status_text(table.is_exported)
}

/// Whether `model` shows `column`.
pub open spec fn shows_column(model: ColumnViewModel, column: TwoColumnView) -> bool {
    &&& model.name@ == column.name
    &&& model.data_type@ == column.data_type
}

impl TablePresenter {
    /// Format a table for display.
    pub fn present_table(table: &Table) -> (model: TableViewModel)
        ensures
            shows_table(model, table@),
    {
        TableViewModel {
            id: table.id,
            name: table.name.clone(),
            table_type: table.table_type.name().to_owned(),
            export_complexity_type: table.export_complexity_type.name().to_owned(),
            database: table.database.clone(),
            export_order: table.export_order,
            is_self_referencing: table.is_self_referencing,
            self_referencing_column: table.self_referencing_column.clone(),
            row_count: table.row_count,
            is_exported: table.is_exported,
            status: status_of(table.is_exported),
        }
    }

    /// Format a list of tables for display: one model for each table, in
    /// the order of the tables.
    pub fn present_tables(tables: &[Table]) -> (models: Vec<TableViewModel>)
        ensures
            models@.len() == tables@.len(),
            forall|i: int| 0 <= i < tables@.len() ==> shows_table(#[trigger] models@[i], tables@[i]@),
    {
        let mut models: Vec<TableViewModel> = Vec::new();
        let mut i: usize = 0;
        while i < tables.len()
            invariant
                i <= tables@.len(),
                models@.len() == i,
                forall|j: int| 0 <= j < i ==> shows_table(#[trigger] models@[j], tables@[j]@),
            decreases tables@.len() - i,
        {
            models.push(Self::present_table(&tables[i]));
            i += 1;
        }
        models
    }

    /// Format a column for display.
    pub fn present_column(column: &TwoColumn) -> (model: ColumnViewModel)
        ensures
            shows_column(model, column@),
    {
        ColumnViewModel { name: column.name.clone(), data_type: column.data_type.clone() }
    }

    /// Format a list of columns for display: one model for each column, in
    /// the order of the columns.
    pub fn present_columns(columns: &[TwoColumn]) -> (models: Vec<ColumnViewModel>)
        ensures
            models@.len() == columns@.len(),
            forall|i: int|
                0 <= i < columns@.len() ==> shows_column(#[trigger] models@[i], columns@[i]@),
    {
        let mut models: Vec<ColumnViewModel> = Vec::new();
        let mut i: usize = 0;
        while i < columns.len()
            invariant
                i <= columns@.len(),
                models@.len() == i,
                forall|j: int| 0 <= j < i ==> shows_column(#[trigger] models@[j], columns@[j]@),
            decreases columns@.len() - i,
        {
            models.push(Self::present_column(&columns[i]));
            i += 1;
        }
        models
    }

    /// Format a row for display: its values, unchanged.
    pub fn present_row(row: &Vec<String>) -> (model: RowViewModel)
        ensures
            views(model.values@) == views(row@),
    {
        RowViewModel { values: duplicate_strings(row) }
    }

    /// Format a list of rows for display: one model for each row, in the
    /// order of the rows.
    pub fn present_rows(rows: &[Vec<String>]) -> (models: Vec<RowViewModel>)
        ensures
            models@.len() == rows@.len(),
            forall|i: int|
                0 <= i < rows@.len() ==> views((#[trigger] models@[i]).values@) == views(rows@[i]@),
    {
        let mut models: Vec<RowViewModel> = Vec::new();
        let mut i: usize = 0;
        while i < rows.len()
            invariant
                i <= rows@.len(),
                models@.len() == i,
                forall|j: int|
                    0 <= j < i ==> views((#[trigger] models@[j]).values@) == views(rows@[j]@),
            decreases rows@.len() - i,
        {
            models.push(Self::present_row(&rows[i]));
            i += 1;
        }
        models
    }
}

} // verus!
