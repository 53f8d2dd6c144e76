//! Access to the tables of the databases.

use crate::domain::row::Row;
use crate::domain::table::Table;
use crate::domain::two_column::TwoColumn;
use vstd::prelude::*;

verus! {

/// A repository of tables. Each operation comes with a predicate that says
/// which outcomes the repository may give on which arguments. As the trait
/// has it, every outcome is possible; an implementation that is known to
/// give less states so in the predicate. Callers learn no more of an
/// outcome than the predicate says.
pub trait TableRepository {
    /// The outcomes of [`TableRepository::get_table_by_name`].
    open spec fn table_by_name_outcome(
        &self,
        database_name: Seq<char>,
        table_name: Seq<char>,
        outcome: Result<Table, String>,
    ) -> bool {
        true
    }

    /// The outcomes of [`TableRepository::get_all_tables`].
    open spec fn all_tables_outcome(&self, database_name: Seq<char>, outcome: Result<Vec<Table>, String>) -> bool {
        true
    }

    /// The outcomes of [`TableRepository::get_empty_tables`].
    open spec fn empty_tables_outcome(&self, database_name: Seq<char>, outcome: Result<Vec<Table>, String>) -> bool {
        true
    }

    /// The outcomes of [`TableRepository::get_clean_tables`].
    open spec fn clean_tables_outcome(&self, database_name: Seq<char>, outcome: Result<Vec<Table>, String>) -> bool {
        true
    }

    /// The outcomes of [`TableRepository::get_self_referencing_tables`].
    open spec fn self_referencing_tables_outcome(
        &self,
        database_name: Seq<char>,
        outcome: Result<Vec<Table>, String>,
    ) -> bool {
        true
    }

    /// The outcomes of [`TableRepository::update_table`].
    open spec fn update_table_outcome(&self, table: Table, outcome: Result<(), String>) -> bool {
        true
    }

    /// The outcomes of [`TableRepository::insert_table`].
    open spec fn insert_table_outcome(&self, table: Table, outcome: Result<(), String>) -> bool {
        true
    }

    /// The outcomes of [`TableRepository::table_exists`].
    open spec fn table_exists_outcome(&self, table: Table, outcome: Result<bool, String>) -> bool {
        true
    }

    /// The outcomes of [`TableRepository::get_columns`].
    open spec fn columns_outcome(
        &self,
        database_name: Seq<char>,
        table_name: Seq<char>,
        outcome: Result<Vec<TwoColumn>, String>,
    ) -> bool {
        true
    }

    /// The outcomes of [`TableRepository::get_rows`].
    open spec fn rows_outcome(
        &self,
        database_name: Seq<char>,
        table_name: Seq<char>,
        outcome: Result<Vec<Row>, String>,
    ) -> bool {
        true
    }

    /// The outcomes of [`TableRepository::execute_query`].
    open spec fn execute_outcome(
        &self,
        database_name: Seq<char>,
        query: Seq<char>,
        outcome: Result<(), String>,
    ) -> bool {
        true
    }

    /// Get a table by its name.
    fn get_table_by_name(&self, database_name: &str, table_name: &str) -> (outcome: Result<
        Table,
        String,
    >)
        ensures
            self.table_by_name_outcome(database_name@, table_name@, outcome),
    ;

    /// Get all tables of a database.
    fn get_all_tables(&self, database_name: &str) -> (outcome: Result<Vec<Table>, String>)
        ensures
            self.all_tables_outcome(database_name@, outcome),
    ;

    /// Get all empty tables of a database.
    fn get_empty_tables(&self, database_name: &str) -> (outcome: Result<Vec<Table>, String>)
        ensures
            self.empty_tables_outcome(database_name@, outcome),
    ;

    /// Get all tables without foreign keys.
    fn get_clean_tables(&self, database_name: &str) -> (outcome: Result<Vec<Table>, String>)
        ensures
            self.clean_tables_outcome(database_name@, outcome),
    ;

    /// Get all tables that refer to themselves.
    fn get_self_referencing_tables(&self, database_name: &str) -> (outcome: Result<
        Vec<Table>,
        String,
    >)
        ensures
            self.self_referencing_tables_outcome(database_name@, outcome),
    ;

    /// Update the record of a table.
    fn update_table(&self, table: &Table) -> (outcome: Result<(), String>)
        ensures
            self.update_table_outcome(*table, outcome),
    ;

    /// Insert the record of a new table.
    fn insert_table(&self, table: &Table) -> (outcome: Result<(), String>)
        ensures
            self.insert_table_outcome(*table, outcome),
    ;

    /// Check whether the table of the record's name exists in the record's
    /// database.
    fn table_exists(&self, table: &Table) -> (outcome: Result<bool, String>)
        ensures
            self.table_exists_outcome(*table, outcome),
    ;

    /// Get the columns of a table; none where the table does not exist.
    fn get_columns(&self, database_name: &str, table_name: &str) -> (outcome: Result<
        Vec<TwoColumn>,
        String,
    >)
        ensures
            self.columns_outcome(database_name@, table_name@, outcome),
    ;

    /// Get the rows of a table; none where the table does not exist.
    fn get_rows(&self, database_name: &str, table_name: &str) -> (outcome: Result<Vec<Row>, String>)
        ensures
            self.rows_outcome(database_name@, table_name@, outcome),
    ;

    /// Execute a statement on a database. A refusal comes back with the
    /// text that the database gave for it.
    fn execute_query(&self, database_name: &str, query: &str) -> (outcome: Result<(), String>)
        ensures
            self.execute_outcome(database_name@, query@, outcome),
    ;
}

} // verus!
