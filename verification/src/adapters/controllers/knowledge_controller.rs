//! The controller of the knowledge store.

use crate::application::repositories::knowledge_repository::KnowledgeRepository;
use crate::domain::table::Table;
use vstd::prelude::*;

verus! {

/// Controller for handling knowledge-related operations. Each operation
/// hands its arguments to the repository and returns what the repository
/// gave.
pub struct KnowledgeController<T: KnowledgeRepository> {
    pub knowledge_repository: T,
}

impl<T: KnowledgeRepository> KnowledgeController<T> {
    /// Create a new controller over the given repository.
    pub fn new(knowledge_repository: T) -> (controller: Self)
        ensures
            controller.knowledge_repository == knowledge_repository,
    {
        Self { knowledge_repository }
    }

    /// Get what is known of a table.
    pub fn get_table_knowledge(&self, database_name: &str, table_name: &str) -> (outcome: Result<
        Table,
        String,
    >)
        ensures
            self.knowledge_repository.table_knowledge_outcome(database_name@, table_name@, outcome),
    {
        self.knowledge_repository.get_table_knowledge(database_name, table_name)
    }

    /// Store what is known of a table.
    pub fn update_table_knowledge(&self, table: &Table) -> (outcome: Result<(), String>)
        ensures
            self.knowledge_repository.update_table_knowledge_outcome(*table, outcome),
    {
        self.knowledge_repository.update_table_knowledge(table)
    }

    /// Bring the row count of a record up to date.
    pub fn update_row_count(&self, table: &mut Table) -> (outcome: Result<(), String>)
        ensures
            self.knowledge_repository.update_row_count_outcome(*old(table), *final(table), outcome),
    {
        self.knowledge_repository.update_row_count(table)
    }

    /// Bring up to date whether a table refers to itself.
    pub fn update_self_referencing(&self, table: &mut Table, database_name: &str) -> (outcome:
        Result<(), String>)
        ensures
            self.knowledge_repository.update_self_referencing_outcome(
                *old(table),
                *final(table),
                database_name@,
                outcome,
            ),
    {
        self.knowledge_repository.update_self_referencing(table, database_name)
    }

    /// Store whether a table is exported.
    pub fn update_export_status(&self, table_name: &str, is_exported: bool) -> (outcome: Result<
        (),
        String,
    >)
        ensures
            self.knowledge_repository.update_export_status_outcome(
                table_name@,
                is_exported,
                outcome,
            ),
    {
        self.knowledge_repository.update_export_status(table_name, is_exported)
    }

    /// Get all tables that are exported.
    pub fn get_exported_tables(&self) -> (outcome: Result<Vec<Table>, String>)
        ensures
            self.knowledge_repository.exported_tables_outcome(outcome),
    {
        self.knowledge_repository.get_exported_tables()
    }

    /// Get all tables that are not exported.
    pub fn get_non_exported_tables(&self) -> (outcome: Result<Vec<Table>, String>)
        ensures
            self.knowledge_repository.non_exported_tables_outcome(outcome),
    {
        self.knowledge_repository.get_non_exported_tables()
    }

    /// Reads the tables that are not exported and does nothing with them:
    /// succeeds where the repository lists them, and fails as the
    /// repository fails.
    pub fn update_empty_tables_knowledge(&self, database_name: &str) -> (outcome: Result<
        (),
        String,
    >)
        ensures
            match outcome {
                Ok(_) => exists|tables: Vec<Table>|
                    #[trigger] self.knowledge_repository.non_exported_tables_outcome(Ok(tables)),
                Err(e) => self.knowledge_repository.non_exported_tables_outcome(Err(e)),
            },
    {
        match self.knowledge_repository.get_non_exported_tables() {
            Ok(_) => Ok(()),
            Err(e) => Err(e),
        }
    }
}

} // verus!
