//! A knowledge repository that answers from memory, with the same few
//! records whatever it is asked.

use crate::adapters::gateways::postgres_table_gateway::{describe_connection_failure, plain_table};
use crate::application::repositories::knowledge_repository::KnowledgeRepository;
use crate::domain::table::{
    fresh_table, table_views, ExportComplexityType, Table, TableType, TableView,
};
use vstd::prelude::*;
use vstd::string::*;

verus! {

/// Knowledge repository that stands in for an SQLite catalog.
pub struct SqliteKnowledgeGateway {
    pub db_path: String,
}

/// A record of the gateway's catalog, which holds tables of `database1`.
pub open spec fn catalog_table(
    id: i64,
    name: Seq<char>,
    export_order: i64,
    row_count: i64,
    is_exported: bool,
) -> TableView {
    TableView { id, export_order, row_count, is_exported, ..fresh_table(name, "database1"@) }
}

/// The tables that the gateway lists as exported.
pub open spec fn exported_catalog() -> Seq<TableView> {
    seq![
        catalog_table(1, "exported_table1"@, 1, 10, true),
        catalog_table(2, "exported_table2"@, 2, 20, true),
    ]
}

/// The tables that the gateway lists as not exported.
pub open spec fn non_exported_catalog() -> Seq<TableView> {
    seq![
        catalog_table(3, "non_exported_table1"@, 0, 5, false),
        TableView {
            export_complexity_type: ExportComplexityType::COMPLEX,
            is_self_referencing: true,
            self_referencing_column: "parent_id"@,
            ..catalog_table(4, "non_exported_table2"@, 0, 15, false)
        },
    ]
}

fn catalog(id: i64, name: &str, export_order: i64, row_count: i64, is_exported: bool) -> (table:
    Table)
    ensures
        table@ == catalog_table(id, name@, export_order, row_count, is_exported),
{
    Table {
        id,
        name: name.to_owned(),
        table_type: TableType::BaseTable,
        export_complexity_type: ExportComplexityType::SIMPLE,
        database: "database1".to_owned(),
        export_order,
        is_self_referencing: false,
        self_referencing_column: String::new(),
        row_count,
        is_exported,
    }
}

impl SqliteKnowledgeGateway {
    /// Create a new gateway with the given database path.
    pub fn new(db_path: String) -> (gateway: Self)
        ensures
            gateway.db_path == db_path,
    {
        Self { db_path }
    }

    /// Establishes the connection. Nothing is connected to, so this
    /// succeeds.
    pub fn connect(&self) -> (outcome: Result<(), String>)
        ensures
            outcome is Ok,
    {
        Ok(())
    }
}

impl KnowledgeRepository for SqliteKnowledgeGateway {
    open spec fn table_knowledge_outcome(
        &self,
        database_name: Seq<char>,
        table_name: Seq<char>,
        outcome: Result<Table, String>,
    ) -> bool {
        outcome matches Ok(table) && table@ == plain_table(1, table_name, database_name)
    }

    open spec fn update_table_knowledge_outcome(&self, table: Table, outcome: Result<(), String>) -> bool {
        outcome is Ok
    }

    open spec fn update_row_count_outcome(
        &self,
        before: Table,
        after: Table,
        outcome: Result<(), String>,
    ) -> bool {
        outcome is Ok && after@ == (TableView { row_count: 10, ..before@ })
    }

    open spec fn update_self_referencing_outcome(
        &self,
        before: Table,
        after: Table,
        database_name: Seq<char>,
        outcome: Result<(), String>,
    ) -> bool {
        outcome is Ok && after@ == (TableView {
            is_self_referencing: true,
            export_complexity_type: ExportComplexityType::COMPLEX,
            self_referencing_column: "parent_id"@,
            ..before@
        })
    }

    open spec fn update_export_status_outcome(
        &self,
        table_name: Seq<char>,
        is_exported: bool,
        outcome: Result<(), String>,
    ) -> bool {
        outcome is Ok
    }

    open spec fn exported_tables_outcome(&self, outcome: Result<Vec<Table>, String>) -> bool {
        outcome matches Ok(tables) && table_views(tables@) == exported_catalog()
    }

    open spec fn non_exported_tables_outcome(&self, outcome: Result<Vec<Table>, String>) -> bool {
        outcome matches Ok(tables) && table_views(tables@) == non_exported_catalog()
    }

    fn get_table_knowledge(&self, database_name: &str, table_name: &str) -> (outcome: Result<
        Table,
        String,
    >) {
        match self.connect() {
            Ok(_) => {
                let table = Table {
                    id: 1,
                    name: table_name.to_owned(),
                    table_type: TableType::BaseTable,
                    export_complexity_type: ExportComplexityType::SIMPLE,
                    database: database_name.to_owned(),
                    export_order: 0,
                    is_self_referencing: false,
                    self_referencing_column: String::new(),
                    row_count: 0,
                    is_exported: false,
                };
                Ok(table)
            },
            Err(e) => Err(describe_connection_failure(e.as_str())),
        }
    }

    fn update_table_knowledge(&self, table: &Table) -> (outcome: Result<(), String>) {
        match self.connect() {
            Ok(_) => Ok(()),
            Err(e) => Err(describe_connection_failure(e.as_str())),
        }
    }

    fn update_row_count(&self, table: &mut Table) -> (outcome: Result<(), String>) {
        match self.connect() {
            Ok(_) => {
                table.row_count = 10;
                Ok(())
            },
            Err(e) => Err(describe_connection_failure(e.as_str())),
        }
    }

    fn update_self_referencing(&self, table: &mut Table, database_name: &str) -> (outcome: Result<
        (),
        String,
    >) {
        match self.connect() {
            Ok(_) => {
                table.is_self_referencing = true;
                table.export_complexity_type = ExportComplexityType::COMPLEX;
                table.self_referencing_column = "parent_id".to_owned();
                Ok(())
            },
            Err(e) => Err(describe_connection_failure(e.as_str())),
        }
    }

    fn update_export_status(&self, table_name: &str, is_exported: bool) -> (outcome: Result<
        (),
        String,
    >) {
        match self.connect() {
            Ok(_) => Ok(()),
            Err(e) => Err(describe_connection_failure(e.as_str())),
        }
    }

    fn get_exported_tables(&self) -> (outcome: Result<Vec<Table>, String>) {
        match self.connect() {
            Ok(_) => {
                let mut tables: Vec<Table> = Vec::new();
                tables.push(catalog(1, "exported_table1", 1, 10, true));
                tables.push(catalog(2, "exported_table2", 2, 20, true));
                assert(table_views(tables@) =~= exported_catalog());
                Ok(tables)
            },
            Err(e) => Err(describe_connection_failure(e.as_str())),
        }
    }

    fn get_non_exported_tables(&self) -> (outcome: Result<Vec<Table>, String>) {
        match self.connect() {
            Ok(_) => {
                let mut second = catalog(4, "non_exported_table2", 0, 15, false);
                second.export_complexity_type = ExportComplexityType::COMPLEX;
                second.is_self_referencing = true;
                second.self_referencing_column = "parent_id".to_owned();
                let mut tables: Vec<Table> = Vec::new();
                tables.push(catalog(3, "non_exported_table1", 0, 5, false));
                tables.push(second);
                assert(table_views(tables@) =~= non_exported_catalog());
                Ok(tables)
            },
            Err(e) => Err(describe_connection_failure(e.as_str())),
        }
    }
}

} // verus!
