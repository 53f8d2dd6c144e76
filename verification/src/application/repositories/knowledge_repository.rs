//! Access to the knowledge store.

use crate::domain::table::Table;
use vstd::prelude::*;

verus! {

/// A repository of what is known of the tables. Each operation comes with a
/// predicate that says which outcomes the repository may give on which
/// arguments. As the trait has it, every outcome is possible; an
/// implementation that is known to give less states so in the predicate.
/// Callers learn no more of an outcome than the predicate says.
pub trait KnowledgeRepository {
    /// The outcomes of [`KnowledgeRepository::get_table_knowledge`].
    open spec fn table_knowledge_outcome(
        &self,
        database_name: Seq<char>,
        table_name: Seq<char>,
        outcome: Result<Table, String>,
    ) -> bool {
        true
    }

    /// The outcomes of [`KnowledgeRepository::update_table_knowledge`].
    open spec fn update_table_knowledge_outcome(&self, table: Table, outcome: Result<(), String>) -> bool {
        true
    }

    /// The outcomes of [`KnowledgeRepository::update_row_count`], with the
    /// record before and after.
    open spec fn update_row_count_outcome(
        &self,
        before: Table,
        after: Table,
        outcome: Result<(), String>,
    ) -> bool {
        true
    }

    /// The outcomes of [`KnowledgeRepository::update_self_referencing`],
    /// with the record before and after.
    open spec fn update_self_referencing_outcome(
        &self,
        before: Table,
        after: Table,
        database_name: Seq<char>,
        outcome: Result<(), String>,
    ) -> bool {
        true
    }

    /// The outcomes of [`KnowledgeRepository::update_export_status`].
    open spec fn update_export_status_outcome(
        &self,
        table_name: Seq<char>,
        is_exported: bool,
        outcome: Result<(), String>,
    ) -> bool {
        true
    }

    /// The outcomes of [`KnowledgeRepository::get_exported_tables`].
    open spec fn exported_tables_outcome(&self, outcome: Result<Vec<Table>, String>) -> bool {
        true
    }

    /// The outcomes of [`KnowledgeRepository::get_non_exported_tables`].
    open spec fn non_exported_tables_outcome(&self, outcome: Result<Vec<Table>, String>) -> bool {
        true
    }

    /// Get what is known of a table.
    fn get_table_knowledge(&self, database_name: &str, table_name: &str) -> (outcome: Result<
        Table,
        String,
    >)
        ensures
            self.table_knowledge_outcome(database_name@, table_name@, outcome),
    ;

    /// Store what is known of a table.
    fn update_table_knowledge(&self, table: &Table) -> (outcome: Result<(), String>)
        ensures
            self.update_table_knowledge_outcome(*table, outcome),
    ;

    /// Bring the row count of a record up to date.
    fn update_row_count(&self, table: &mut Table) -> (outcome: Result<(), String>)
        ensures
            self.update_row_count_outcome(*old(table), *final(table), outcome),
    ;

    /// Bring up to date whether a table refers to itself.
    fn update_self_referencing(&self, table: &mut Table, database_name: &str) -> (outcome: Result<
        (),
        String,
    >)
        ensures
            self.update_self_referencing_outcome(
                *old(table),
                *final(table),
                database_name@,
                outcome,
            ),
    ;

    /// Store whether a table is exported.
    fn update_export_status(&self, table_name: &str, is_exported: bool) -> (outcome: Result<
        (),
        String,
    >)
        ensures
            self.update_export_status_outcome(table_name@, is_exported, outcome),
    ;

    /// Get all tables that are exported.
    fn get_exported_tables(&self) -> (outcome: Result<Vec<Table>, String>)
        ensures
            self.exported_tables_outcome(outcome),
    ;

    /// Get all tables that are not exported.
    fn get_non_exported_tables(&self) -> (outcome: Result<Vec<Table>, String>)
        ensures
            self.non_exported_tables_outcome(outcome),
    ;
}

} // verus!
