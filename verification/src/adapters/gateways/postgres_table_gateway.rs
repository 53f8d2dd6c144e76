//! A table repository that answers from memory, with the same few tables,
//! columns and rows whatever it is asked.

use crate::application::repositories::table_repository::TableRepository;
use crate::domain::row::{row_views, Cell, CellValue, CellValueView, CellView, Row};
use crate::domain::table::{
    fresh_table, table_views, ExportComplexityType, Table, TableType, TableView,
};
use crate::domain::two_column::{column_views, TwoColumn, TwoColumnView};
use vstd::prelude::*;
use vstd::string::*;

verus! {

/// Table repository that stands in for a PostgreSQL database.
pub struct PostgresTableGateway {
    pub connection_string: String,
}

/// The record that the gateway gives for an ordinary table.
pub open spec fn plain_table(id: i64, name: Seq<char>, database: Seq<char>) -> TableView {
    TableView { id, ..fresh_table(name, database) }
}

/// The record that the gateway gives for its self-referencing table.
pub open spec fn self_referencing_table(database: Seq<char>) -> TableView {
    TableView {
        id: 1,
        export_complexity_type: ExportComplexityType::COMPLEX,
        is_self_referencing: true,
        self_referencing_column: "parent_id"@,
        row_count: 10,
        ..fresh_table("self_ref_table1"@, database)
    }
}

/// The columns that the gateway gives for every table.
pub open spec fn simulated_columns() -> Seq<TwoColumnView> {
    seq![
        TwoColumnView { name: "id"@, data_type: "integer"@ },
        TwoColumnView { name: "name"@, data_type: "varchar"@ },
    ]
}

/// One of the rows that the gateway gives for every table.
pub open spec fn simulated_row(id: i32, name: Seq<char>) -> Seq<CellView> {
    seq![
        CellView { name: "id"@, value: CellValueView::Int4(Some(id)) },
        CellView { name: "name"@, value: CellValueView::Varchar(Some(name)) },
    ]
}

/// The rows that the gateway gives for every table.
pub open spec fn simulated_rows() -> Seq<Seq<CellView>> {
    seq![simulated_row(1, "Row 1"@), simulated_row(2, "Row 2"@)]
}

fn plain(id: i64, name: &str, database: &str) -> (table: Table)
    ensures
        table@ == plain_table(id, name@, database@),
{
    Table {
        id,
        name: name.to_owned(),
        table_type: TableType::BaseTable,
        export_complexity_type: ExportComplexityType::SIMPLE,
        database: database.to_owned(),
        export_order: 0,
        is_self_referencing: false,
        self_referencing_column: String::new(),
        row_count: 0,
        is_exported: false,
    }
}

fn one_table(table: Table) -> (tables: Vec<Table>)
    ensures
        table_views(tables@) == seq![table@],
{
    let mut tables: Vec<Table> = Vec::new();
    tables.push(table);
    assert(table_views(tables@) =~= seq![table@]);
    tables
}

fn row_of(id: i32, name: &str) -> (row: Row)
    ensures
        row@ == simulated_row(id, name@),
{
    let mut cells: Vec<Cell> = Vec::new();
    cells.push(Cell { name: "id".to_owned(), value: CellValue::Int4(Some(id)) });
    cells.push(Cell { name: "name".to_owned(), value: CellValue::Varchar(Some(name.to_owned())) });
    let row = Row { cells };
    assert(row@ =~= simulated_row(id, name@));
    row
}

/// The text of a failure to connect.
pub open spec fn connection_failure(reason: Seq<char>) -> Seq<char> {
    "Failed to connect to database: "@ + reason
}

/// Writes out a failure to connect.
pub fn describe_connection_failure(reason: &str) -> (text: String)
    ensures
        text@ == connection_failure(reason@),
{
    let mut text = String::new();
    text.append("Failed to connect to database: ");
    text.append(reason);
    assert(text@ =~= connection_failure(reason@));
    text
}

impl PostgresTableGateway {
    /// Create a new gateway with the given connection string.
    pub fn new(connection_string: String) -> (gateway: Self)
        ensures
            gateway.connection_string == connection_string,
    {
        Self { connection_string }
    }

    /// Establishes the connection. Nothing is connected to, so this
    /// succeeds.
    pub fn connect(&self) -> (outcome: Result<(), String>)
        ensures
            outcome is Ok,
    {
        Ok(())
    }
}

impl TableRepository for PostgresTableGateway {
    open spec fn table_by_name_outcome(
        &self,
        database_name: Seq<char>,
        table_name: Seq<char>,
        outcome: Result<Table, String>,
    ) -> bool {
        outcome matches Ok(table) && table@ == plain_table(1, table_name, database_name)
    }

    open spec fn all_tables_outcome(&self, database_name: Seq<char>, outcome: Result<Vec<Table>, String>) -> bool {
        outcome matches Ok(tables) && table_views(tables@) == seq![
            plain_table(1, "table1"@, database_name),
            plain_table(2, "table2"@, database_name),
        ]
    }

    open spec fn empty_tables_outcome(&self, database_name: Seq<char>, outcome: Result<Vec<Table>, String>) -> bool {
        outcome matches Ok(tables) && table_views(tables@) == seq![
            plain_table(1, "empty_table1"@, database_name),
        ]
    }

    open spec fn clean_tables_outcome(&self, database_name: Seq<char>, outcome: Result<Vec<Table>, String>) -> bool {
        outcome matches Ok(tables) && table_views(tables@) == seq![
            plain_table(1, "clean_table1"@, database_name),
        ]
    }

    open spec fn self_referencing_tables_outcome(
        &self,
        database_name: Seq<char>,
        outcome: Result<Vec<Table>, String>,
    ) -> bool {
        outcome matches Ok(tables) && table_views(tables@) == seq![
            self_referencing_table(database_name),
        ]
    }

    open spec fn update_table_outcome(&self, table: Table, outcome: Result<(), String>) -> bool {
        outcome is Ok
    }

    open spec fn insert_table_outcome(&self, table: Table, outcome: Result<(), String>) -> bool {
        outcome is Ok
    }

    open spec fn table_exists_outcome(&self, table: Table, outcome: Result<bool, String>) -> bool {
        outcome == Ok::<bool, String>(true)
    }

    open spec fn columns_outcome(
        &self,
        database_name: Seq<char>,
        table_name: Seq<char>,
        outcome: Result<Vec<TwoColumn>, String>,
    ) -> bool {
        outcome matches Ok(columns) && column_views(columns@) == simulated_columns()
    }

    open spec fn rows_outcome(
        &self,
        database_name: Seq<char>,
        table_name: Seq<char>,
        outcome: Result<Vec<Row>, String>,
    ) -> bool {
        outcome matches Ok(rows) && row_views(rows@) == simulated_rows()
    }

    open spec fn execute_outcome(
        &self,
        database_name: Seq<char>,
        query: Seq<char>,
        outcome: Result<(), String>,
    ) -> bool {
        outcome is Ok
    }

    fn get_table_by_name(&self, database_name: &str, table_name: &str) -> (outcome: Result<
        Table,
        String,
    >) {
        match self.connect() {
            Ok(_) => Ok(plain(1, table_name, database_name)),
            Err(e) => Err(describe_connection_failure(e.as_str())),
        }
    }

    fn get_all_tables(&self, database_name: &str) -> (outcome: Result<Vec<Table>, String>) {
        match self.connect() {
            Ok(_) => {
                let first = plain(1, "table1", database_name);
                let second = plain(2, "table2", database_name);
                let mut tables: Vec<Table> = Vec::new();
                tables.push(first);
                tables.push(second);
                assert(table_views(tables@) =~= seq![
                    plain_table(1, "table1"@, database_name@),
                    plain_table(2, "table2"@, database_name@),
                ]);
                Ok(tables)
            },
            Err(e) => Err(describe_connection_failure(e.as_str())),
        }
    }

    fn get_empty_tables(&self, database_name: &str) -> (outcome: Result<Vec<Table>, String>) {
        match self.connect() {
            Ok(_) => Ok(one_table(plain(1, "empty_table1", database_name))),
            Err(e) => Err(describe_connection_failure(e.as_str())),
        }
    }

    fn get_clean_tables(&self, database_name: &str) -> (outcome: Result<Vec<Table>, String>) {
        match self.connect() {
            Ok(_) => Ok(one_table(plain(1, "clean_table1", database_name))),
            Err(e) => Err(describe_connection_failure(e.as_str())),
        }
    }

    fn get_self_referencing_tables(&self, database_name: &str) -> (outcome: Result<
        Vec<Table>,
        String,
    >) {
        match self.connect() {
            Ok(_) => {
                let table = Table {
                    id: 1,
                    name: "self_ref_table1".to_owned(),
                    table_type: TableType::BaseTable,
                    export_complexity_type: ExportComplexityType::COMPLEX,
                    database: database_name.to_owned(),
                    export_order: 0,
                    is_self_referencing: true,
                    self_referencing_column: "parent_id".to_owned(),
                    row_count: 10,
                    is_exported: false,
                };
                Ok(one_table(table))
            },
            Err(e) => Err(describe_connection_failure(e.as_str())),
        }
    }

    fn update_table(&self, table: &Table) -> (outcome: Result<(), String>) {
        match self.connect() {
            Ok(_) => Ok(()),
            Err(e) => Err(describe_connection_failure(e.as_str())),
        }
    }

    fn insert_table(&self, table: &Table) -> (outcome: Result<(), String>) {
        match self.connect() {
            Ok(_) => Ok(()),
            Err(e) => Err(describe_connection_failure(e.as_str())),
        }
    }

    fn table_exists(&self, table: &Table) -> (outcome: Result<bool, String>) {
        match self.connect() {
            Ok(_) => Ok(true),
            Err(e) => Err(describe_connection_failure(e.as_str())),
        }
    }

    fn get_columns(&self, database_name: &str, table_name: &str) -> (outcome: Result<
        Vec<TwoColumn>,
        String,
    >) {
        match self.connect() {
            Ok(_) => {
                let mut columns: Vec<TwoColumn> = Vec::new();
                columns.push(TwoColumn { name: "id".to_owned(), data_type: "integer".to_owned() });
                columns.push(
                    TwoColumn { name: "name".to_owned(), data_type: "varchar".to_owned() },
                );
                assert(column_views(columns@) =~= simulated_columns());
                Ok(columns)
            },
            Err(e) => Err(describe_connection_failure(e.as_str())),
        }
    }

    fn get_rows(&self, database_name: &str, table_name: &str) -> (outcome: Result<Vec<Row>, String>) {
        match self.connect() {
            Ok(_) => {
                let mut rows: Vec<Row> = Vec::new();
                rows.push(row_of(1, "Row 1"));
                rows.push(row_of(2, "Row 2"));
                assert(row_views(rows@) =~= simulated_rows());
                Ok(rows)
            },
            Err(e) => Err(describe_connection_failure(e.as_str())),
        }
    }

    fn execute_query(&self, database_name: &str, query: &str) -> (outcome: Result<(), String>) {
        match self.connect() {
            Ok(_) => Ok(()),
            Err(e) => Err(describe_connection_failure(e.as_str())),
        }
    }
}

} // verus!
