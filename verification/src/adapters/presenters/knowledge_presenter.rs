//! What is known of the tables, made ready for display.

use crate::domain::table::{Table, TableView};
use vstd::prelude::*;
use vstd::string::*;

verus! {

/// View model for what is known of a table.
#[derive(Debug, Clone, PartialEq, Eq)]
pub struct TableKnowledgeViewModel {
    pub id: i64,
    pub name: String,
    pub database: String,
    pub row_count: i64,
    pub is_self_referencing: bool,
    pub self_referencing_column: String,
    pub is_exported: bool,
    pub export_order: i64,
    pub status: String,
}

/// View model for a summary of what is known of the tables.
#[derive(Debug, Clone, Copy, PartialEq, Eq, Structural)]
pub struct KnowledgeSummaryViewModel {
    pub total_tables: usize,
    pub exported_tables: usize,
    pub non_exported_tables: usize,
    pub self_referencing_tables: usize,
    pub empty_tables: usize,
}

/// Presenter for formatting knowledge-related data for display.
pub struct KnowledgePresenter;

/// The word that says whether a table is exported.
pub open spec fn status_text(is_exported: bool) -> Seq<char> {
    if is_exported {
        "Exported"@
    } else {
        "Not Exported"@
    }
}

/// Writes the word that says whether a table is exported.
pub fn status_of(is_exported: bool) -> (status: String)
    ensures
        status@ == status_text(is_exported),
{
    if is_exported {
        "Exported".to_owned()
    } else {
        "Not Exported".to_owned()
    }
}

/// Whether `model` shows `table`: every field that it has as the table has
/// it, and the status that goes with the export flag.
pub open spec fn shows_knowledge(model: TableKnowledgeViewModel, table: TableView) -> bool {
    &&& model.id == table.id
    &&& model.name@ == table.name
    &&& model.database@ == table.database
    &&& model.row_count == table.row_count
    &&& model.is_self_referencing == table.is_self_referencing
    &&& model.self_referencing_column@ == table.self_referencing_column
    &&& model.is_exported == table.is_exported
    &&& model.export_order == table.export_order
    &&& model.status@ == status_text(table.is_exported)
}

/// The tables that are exported.
pub open spec fn exported() -> spec_fn(Table) -> bool {
    |t: Table| t.is_exported
}

/// The tables that refer to themselves.
pub open spec fn self_referencing() -> spec_fn(Table) -> bool {
    |t: Table| t.is_self_referencing
}

/// The tables without rows.
pub open spec fn empty() -> spec_fn(Table) -> bool {
    |t: Table| t.row_count == 0
}

/// The summary of `tables`: how many there are, and how many of them are
/// exported, not exported, self-referencing and empty.
pub open spec fn summary_of(tables: Seq<Table>) -> KnowledgeSummaryViewModel {
    KnowledgeSummaryViewModel {
        total_tables: tables.len() as usize,
        exported_tables: tables.filter(exported()).len() as usize,
        non_exported_tables: (tables.len() - tables.filter(exported()).len()) as usize,
        self_referencing_tables: tables.filter(self_referencing()).len() as usize,
        empty_tables: tables.filter(empty()).len() as usize,
    }
}

impl KnowledgePresenter {
    /// Format what is known of a table for display.
    pub fn present_table_knowledge(table: &Table) -> (model: TableKnowledgeViewModel)
        ensures
            shows_knowledge(model, table@),
    {
        TableKnowledgeViewModel {
            id: table.id,
            name: table.name.clone(),
            database: table.database.clone(),
            row_count: table.row_count,
            is_self_referencing: table.is_self_referencing,
            self_referencing_column: table.self_referencing_column.clone(),
            is_exported: table.is_exported,
            export_order: table.export_order,
            status: status_of(table.is_exported),
        }
    }

    /// Format a list of tables for display: one model for each table, in
    /// the order of the tables.
    pub fn present_tables_knowledge(tables: &[Table]) -> (models: Vec<TableKnowledgeViewModel>)
        ensures
            models@.len() == tables@.len(),
            forall|i: int| 0 <= i < tables@.len() ==> shows_knowledge(#[trigger] models@[i], tables@[i]@),
    {
        let mut models: Vec<TableKnowledgeViewModel> = Vec::new();
        let mut i: usize = 0;
        while i < tables.len()
            invariant
                i <= tables@.len(),
                models@.len() == i,
                forall|j: int| 0 <= j < i ==> shows_knowledge(#[trigger] models@[j], tables@[j]@),
            decreases tables@.len() - i,
        {
            models.push(Self::present_table_knowledge(&tables[i]));
            i += 1;
        }
        models
    }

    /// Create a summary of what is known of the tables.
    pub fn present_knowledge_summary(tables: &[Table]) -> (summary: KnowledgeSummaryViewModel)
        ensures
            summary == summary_of(tables@),
            summary.exported_tables + summary.non_exported_tables == summary.total_tables,
    {
        let total_tables = tables.len();
        let mut exported_tables: usize = 0;
        let mut self_referencing_tables: usize = 0;
        let mut empty_tables: usize = 0;
        let mut i: usize = 0;
        proof {
            reveal(Seq::filter);
            assert(tables@.take(0).filter(exported()).len() == 0);
            assert(tables@.take(0).filter(self_referencing()).len() == 0);
            assert(tables@.take(0).filter(empty()).len() == 0);
        }
        while i < tables.len()
            invariant
                i <= tables@.len(),
                exported_tables == tables@.take(i as int).filter(exported()).len(),
                self_referencing_tables == tables@.take(i as int).filter(self_referencing()).len(),
                empty_tables == tables@.take(i as int).filter(empty()).len(),
                exported_tables <= i,
                self_referencing_tables <= i,
                empty_tables <= i,
            decreases tables@.len() - i,
        {
            proof {
                reveal(Seq::filter);
                assert(tables@.take(i as int + 1).drop_last() == tables@.take(i as int));
                assert(tables@.take(i as int + 1).last() == tables@[i as int]);
            }
            if tables[i].is_exported {
                exported_tables += 1;
            }
            if tables[i].is_self_referencing {
                self_referencing_tables += 1;
            }
            if tables[i].row_count == 0 {
                empty_tables += 1;
            }
            i += 1;
        }
        assert(tables@.take(tables@.len() as int) == tables@);
        KnowledgeSummaryViewModel {
            total_tables,
            exported_tables,
            non_exported_tables: total_tables - exported_tables,
            self_referencing_tables,
            empty_tables,
        }
    }
}

} // verus!
