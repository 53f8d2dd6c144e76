//! The controller of the tables.

use crate::application::repositories::table_repository::TableRepository;
use crate::domain::row::Row;
use crate::domain::table::Table;
use crate::domain::two_column::TwoColumn;
use vstd::prelude::*;

verus! {

/// Controller for handling table-related operations. Each operation hands
/// its arguments to the repository and returns what the repository gave.
pub struct TableController<T: TableRepository> {
    pub table_repository: T,
}

impl<T: TableRepository> TableController<T> {
    /// Create a new controller over the given repository.
    pub fn new(table_repository: T) -> (controller: Self)
        ensures
            controller.table_repository == table_repository,
    {
        Self { table_repository }
    }

    /// Get a table by its name.
    pub fn get_table(&self, database_name: &str, table_name: &str) -> (outcome: Result<
        Table,
        String,
    >)
        ensures
            self.table_repository.table_by_name_outcome(database_name@, table_name@, outcome),
    {
        self.table_repository.get_table_by_name(database_name, table_name)
    }

    /// Get all tables of a database.
    pub fn get_all_tables(&self, database_name: &str) -> (outcome: Result<Vec<Table>, String>)
        ensures
            self.table_repository.all_tables_outcome(database_name@, outcome),
    {
        self.table_repository.get_all_tables(database_name)
    }

    /// Get all empty tables of a database.
    pub fn get_empty_tables(&self, database_name: &str) -> (outcome: Result<Vec<Table>, String>)
        ensures
            self.table_repository.empty_tables_outcome(database_name@, outcome),
    {
        self.table_repository.get_empty_tables(database_name)
    }

    /// Get all tables without foreign keys.
    pub fn get_clean_tables(&self, database_name: &str) -> (outcome: Result<Vec<Table>, String>)
        ensures
            self.table_repository.clean_tables_outcome(database_name@, outcome),
    {
        self.table_repository.get_clean_tables(database_name)
    }

    /// Get all tables that refer to themselves.
    pub fn get_self_referencing_tables(&self, database_name: &str) -> (outcome: Result<
        Vec<Table>,
        String,
    >)
        ensures
            self.table_repository.self_referencing_tables_outcome(database_name@, outcome),
    {
        self.table_repository.get_self_referencing_tables(database_name)
    }

    /// Update the record of a table.
    pub fn update_table(&self, table: &Table) -> (outcome: Result<(), String>)
        ensures
            self.table_repository.update_table_outcome(*table, outcome),
    {
        self.table_repository.update_table(table)
    }

    /// Insert the record of a new table.
    pub fn insert_table(&self, table: &Table) -> (outcome: Result<(), String>)
        ensures
            self.table_repository.insert_table_outcome(*table, outcome),
    {
        self.table_repository.insert_table(table)
    }

    /// Check whether a table exists.
    pub fn table_exists(&self, table: &Table) -> (outcome: Result<bool, String>)
        ensures
            self.table_repository.table_exists_outcome(*table, outcome),
    {
        self.table_repository.table_exists(table)
    }

    /// Get the columns of a table.
    pub fn get_columns(&self, database_name: &str, table_name: &str) -> (outcome: Result<
        Vec<TwoColumn>,
        String,
    >)
        ensures
            self.table_repository.columns_outcome(database_name@, table_name@, outcome),
    {
        self.table_repository.get_columns(database_name, table_name)
    }

    /// Get the rows of a table.
    pub fn get_rows(&self, database_name: &str, table_name: &str) -> (outcome: Result<
        Vec<Row>,
        String,
    >)
        ensures
            self.table_repository.rows_outcome(database_name@, table_name@, outcome),
    {
        self.table_repository.get_rows(database_name, table_name)
    }

    /// Execute a statement on a database.
    pub fn execute_query(&self, database_name: &str, query: &str) -> (outcome: Result<(), String>)
        ensures
            self.table_repository.execute_outcome(database_name@, query@, outcome),
    {
        self.table_repository.execute_query(database_name, query)
    }

    /// Looks both tables up, the source's first, and does nothing with
    /// them: succeeds where the repository has both. Where the source's
    /// lookup fails, that failure is handed on and the target is not
    /// looked up; else a failure of the target's lookup is handed on.
    pub fn move_table_data(
        &self,
        source_db: &str,
        source_table: &str,
        target_db: &str,
        target_table: &str,
    ) -> (outcome: Result<(), String>)
        ensures
            match outcome {
                Ok(_) => {
                    &&& exists|source: Table| #[trigger]
                        self.table_repository.table_by_name_outcome(
                            source_db@,
                            source_table@,
                            Ok(source),
                        )
                    &&& exists|target: Table| #[trigger]
                        self.table_repository.table_by_name_outcome(
                            target_db@,
                            target_table@,
                            Ok(target),
                        )
                },
                Err(e) => {
                    ||| self.table_repository.table_by_name_outcome(
                        source_db@,
                        source_table@,
                        Err(e),
                    )
                    ||| {
                        &&& exists|source: Table| #[trigger]
                            self.table_repository.table_by_name_outcome(
                                source_db@,
                                source_table@,
                                Ok(source),
                            )
                        &&& self.table_repository.table_by_name_outcome(
                            target_db@,
                            target_table@,
                            Err(e),
                        )
                    }
                },
            },
    {
        match self.table_repository.get_table_by_name(source_db, source_table) {
            Err(e) => Err(e),
            Ok(_) => match self.table_repository.get_table_by_name(target_db, target_table) {
                Err(e) => Err(e),
                Ok(_) => Ok(()),
            },
        }
    }
}

} // verus!
