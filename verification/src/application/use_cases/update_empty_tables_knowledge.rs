//! Keeping the knowledge store up to date with the tables of a database.

use crate::application::repositories::knowledge_repository::KnowledgeRepository;
use crate::application::repositories::table_repository::TableRepository;
use crate::domain::table::{Table, TableView};
use std::rc::Rc;
use vstd::prelude::*;

verus! {

/// The scans that bring tables into the knowledge store.
#[derive(Debug, Clone, Copy, PartialEq, Eq, Structural)]
pub enum Scan {
    /// The tables without rows.
    Empty,
    /// All tables.
    All,
    /// The tables without foreign keys.
    Clean,
    /// The tables that refer to themselves.
    SelfReferencing,
}

/// What a scan does with the record of one table.
#[derive(Debug, Clone, Copy, PartialEq, Eq, Structural)]
pub enum Upkeep {
    /// Insert the record: the table was never seen.
    Insert,
    /// Store the record in the place of the one that is there.
    Store,
    /// Bring the row count up to date.
    RefreshRowCount,
    /// Leave the store as it is.
    Keep,
}

/// What `scan` does with a table that the store knows already, or not yet.
/// A table that was never seen is inserted, whatever the scan.
pub open spec fn upkeep_of(scan: Scan, known: bool) -> Upkeep {
    if !known {
        Upkeep::Insert
    } else {
        match scan {
            Scan::Empty => Upkeep::RefreshRowCount,
            Scan::All => Upkeep::Store,
            Scan::Clean => Upkeep::Keep,
            Scan::SelfReferencing => Upkeep::Store,
        }
    }
}

/// Decides what `scan` does with a table, given whether the store knows
/// the table.
pub fn upkeep_for(scan: Scan, known: bool) -> (upkeep: Upkeep)
    ensures
        upkeep == upkeep_of(scan, known),
        !known ==> upkeep == Upkeep::Insert,
{
    if !known {
        Upkeep::Insert
    } else {
        match scan {
            Scan::Empty => Upkeep::RefreshRowCount,
            Scan::All => Upkeep::Store,
            Scan::Clean => Upkeep::Keep,
            Scan::SelfReferencing => Upkeep::Store,
        }
    }
}

/// Service for updating what is known of the tables.
pub struct UpdateEmptyTablesKnowledgeService<T: TableRepository, K: KnowledgeRepository> {
    pub table_repository: Rc<T>,
    pub knowledge_repository: Rc<K>,
}

impl<T: TableRepository, K: KnowledgeRepository> UpdateEmptyTablesKnowledgeService<T, K> {
    /// Create a new service over the two repositories.
    pub fn new(table_repository: Rc<T>, knowledge_repository: Rc<K>) -> (service: Self)
        ensures
            service.table_repository == table_repository,
            service.knowledge_repository == knowledge_repository,
    {
        Self { table_repository, knowledge_repository }
    }

    /// Whether `outcome` is what came of bringing a record into the store
    /// as `scan` asks, with the record as it was before and as it is after.
    /// The table repository was asked whether the table of the record is
    /// known. Where it failed, that failure is the outcome. Where it
    /// answered, the outcome is what the repositories gave for the one
    /// thing that [`upkeep_of`] names: the insertion of the record, its
    /// storing, or the refreshing of its row count, which alone may change
    /// the record; where the store is to be left as it is, nothing was
    /// asked and nothing failed.
    pub open spec fn kept_up(
        &self,
        scan: Scan,
        before: Table,
        after: Table,
        outcome: Result<(), String>,
    ) -> bool {
        exists|known: Result<bool, String>| #[trigger]
            self.table_repository.table_exists_outcome(before, known) && match known {
                Err(e) => outcome == Err::<(), String>(e) && after == before,
                Ok(found) => match upkeep_of(scan, found) {
                    Upkeep::Insert => self.table_repository.insert_table_outcome(before, outcome)
                        && after == before,
                    Upkeep::Store => self.knowledge_repository.update_table_knowledge_outcome(
                        before,
                        outcome,
                    ) && after == before,
                    Upkeep::RefreshRowCount => self.knowledge_repository.update_row_count_outcome(
                        before,
                        after,
                        outcome,
                    ),
                    Upkeep::Keep => outcome is Ok && after == before,
                },
            }
    }

    /// Whether `outcome` is what came of [`Self::kept_up`] on the record
    /// `before`, whatever the record is after.
    pub open spec fn kept(&self, scan: Scan, before: Table, outcome: Result<(), String>) -> bool {
        exists|after: Table| #[trigger] self.kept_up(scan, before, after, outcome)
    }

    /// Whether `outcome` is what came of bringing the row count of the
    /// record `before` up to date and then bringing the record, as the
    /// count left it, into the store: the failure of the count, or what
    /// came of the upkeep.
    pub open spec fn counted_then_kept(
        &self,
        scan: Scan,
        before: Table,
        outcome: Result<(), String>,
    ) -> bool {
        exists|count: Result<(), String>, counted: Table| #[trigger]
            self.knowledge_repository.update_row_count_outcome(before, counted, count)
                && match count {
                Err(e) => outcome == Err::<(), String>(e),
                Ok(_) => self.kept(scan, counted, outcome),
            }
    }

    /// Whether `outcome` is what came of the visit that `scan` pays to one
    /// record. The scan of the empty tables and that of the
    /// self-referencing tables bring the record into the store as it is.
    /// The scan of the clean tables brings its row count up to date first.
    /// The scan of all tables brings its self-reference up to date, then
    /// its row count, and then brings it into the store. The first failure
    /// ends the visit.
    pub open spec fn scanned(
        &self,
        scan: Scan,
        database: Seq<char>,
        listed: Table,
        outcome: Result<(), String>,
    ) -> bool {
        match scan {
            Scan::Empty => self.kept(scan, listed, outcome),
            Scan::SelfReferencing => self.kept(scan, listed, outcome),
            Scan::Clean => self.counted_then_kept(scan, listed, outcome),
            Scan::All => exists|marking: Result<(), String>, marked: Table| #[trigger]
                self.knowledge_repository.update_self_referencing_outcome(
                    listed,
                    marked,
                    database,
                    marking,
                ) && match marking {
                    Err(e) => outcome == Err::<(), String>(e),
                    Ok(_) => self.counted_then_kept(scan, marked, outcome),
                },
        }
    }

    /// Whether `outcome` is what came of the visit that `scan` pays to a
    /// record that holds what `listed` holds.
    pub open spec fn visited(
        &self,
        scan: Scan,
        database: Seq<char>,
        listed: TableView,
        outcome: Result<(), String>,
    ) -> bool {
        exists|record: Table|
            record@ == listed && #[trigger] self.scanned(scan, database, record, outcome)
    }

    /// Whether each of the first `upto` of `tables` was visited, and the
    /// visit went through.
    pub open spec fn all_visited(
        &self,
        scan: Scan,
        database: Seq<char>,
        tables: Seq<Table>,
        upto: int,
    ) -> bool {
        forall|i: int|
            0 <= i < upto ==> #[trigger] self.visited(scan, database, tables[i]@, Ok(()))
    }

    /// Whether `outcome` is what came of visiting `tables` in order, up to
    /// the first visit that fails: success where every visit went through,
    /// and else the failure of one visit after all visits before it went
    /// through.
    pub open spec fn visited_in_order(
        &self,
        scan: Scan,
        database: Seq<char>,
        tables: Seq<Table>,
        outcome: Result<(), String>,
    ) -> bool {
        match outcome {
            Ok(_) => self.all_visited(scan, database, tables, tables.len() as int),
            Err(e) => exists|j: int|
                0 <= j < tables.len() && self.all_visited(scan, database, tables, j)
                    && #[trigger] self.visited(scan, database, tables[j]@, Err(e)),
        }
    }

    /// Brings one record into the store as `scan` asks: asks whether the
    /// table is known, and does what [`upkeep_for`] decides.
    fn keep_up(&self, scan: Scan, table: &mut Table) -> (outcome: Result<(), String>)
        ensures
            self.kept_up(scan, *old(table), *final(table), outcome),
    {
        let known = self.table_repository.table_exists(table);
        match known {
            Err(e) => Err(e),
            Ok(found) => match upkeep_for(scan, found) {
                Upkeep::Insert => self.table_repository.insert_table(table),
                Upkeep::Store => self.knowledge_repository.update_table_knowledge(table),
                Upkeep::RefreshRowCount => self.knowledge_repository.update_row_count(table),
                Upkeep::Keep => Ok(()),
            },
        }
    }

    /// Brings the row count of a record up to date, and then the record
    /// into the store.
    fn count_then_keep(&self, scan: Scan, table: &mut Table) -> (outcome: Result<(), String>)
        ensures
            self.counted_then_kept(scan, *old(table), outcome),
    {
        let count = self.knowledge_repository.update_row_count(table);
        match count {
            Err(e) => Err(e),
            Ok(_unit) => self.keep_up(scan, table),
        }
    }

    /// Pays one record the visit of `scan`.
    fn scan_one(&self, scan: Scan, database_name: &str, table: &mut Table) -> (outcome: Result<
        (),
        String,
    >)
        ensures
            self.scanned(scan, database_name@, *old(table), outcome),
    {
        match scan {
            Scan::Empty => self.keep_up(scan, table),
            Scan::SelfReferencing => self.keep_up(scan, table),
            Scan::Clean => self.count_then_keep(scan, table),
            Scan::All => {
                let marking = self.knowledge_repository.update_self_referencing(
                    table,
                    database_name,
                );
                match marking {
                    Err(e) => Err(e),
                    Ok(_unit) => self.count_then_keep(scan, table),
                }
            },
        }
    }

    /// Visits the listed tables in order, up to the first visit that
    /// fails.
    fn scan_in_order(&self, scan: Scan, database_name: &str, tables: &Vec<Table>) -> (outcome:
        Result<(), String>)
        ensures
            self.visited_in_order(scan, database_name@, tables@, outcome),
    {
        let mut i: usize = 0;
        while i < tables.len()
            invariant
                i <= tables.len(),
                self.all_visited(scan, database_name@, tables@, i as int),
            decreases tables.len() - i,
        {
            let mut table = tables[i].duplicate();
            let ghost record = table;
            let done = self.scan_one(scan, database_name, &mut table);
            match done {
                Ok(_unit) => {
                    assert(done == Ok::<(), String>(()));
                    assert(self.scanned(scan, database_name@, record, Ok(())));
                    assert(self.visited(scan, database_name@, tables@[i as int]@, Ok(())));
                },
                Err(e) => {
                    assert(self.scanned(scan, database_name@, record, Err(e)));
                    assert(self.visited(scan, database_name@, tables@[i as int]@, Err(e)));
                    return Err(e);
                },
            }
            i += 1;
        }
        Ok(())
    }

    /// Update what is known of the empty tables of a database: a table
    /// that is known has its row count brought up to date, a new one is
    /// inserted. The tables are visited in the order in which the
    /// repository lists them, up to the first failure of a repository; a
    /// failure to list them is handed on.
    pub fn update_empty_tables_knowledge(&self, database_name: &str) -> (outcome: Result<
        (),
        String,
    >)
        ensures
            exists|listing: Result<Vec<Table>, String>| #[trigger]
                self.table_repository.empty_tables_outcome(database_name@, listing)
                    && match listing {
                    Err(e) => outcome == Err::<(), String>(e),
                    Ok(tables) => self.visited_in_order(
                        Scan::Empty,
                        database_name@,
                        tables@,
                        outcome,
                    ),
                },
    {
        let listing = self.table_repository.get_empty_tables(database_name);
        match listing {
            Err(e) => Err(e),
            Ok(tables) => self.scan_in_order(Scan::Empty, database_name, &tables),
        }
    }

    /// Update what is known of all tables of a database: each has its
    /// self-reference and its row count brought up to date; then a table
    /// that is known is stored anew, a new one is inserted. The tables are
    /// visited in the order in which the repository lists them, up to the
    /// first failure of a repository; a failure to list them is handed on.
    pub fn update_all_tables_knowledge(&self, database_name: &str) -> (outcome: Result<(), String>)
        ensures
            exists|listing: Result<Vec<Table>, String>| #[trigger]
                self.table_repository.all_tables_outcome(database_name@, listing) && match listing {
                    Err(e) => outcome == Err::<(), String>(e),
                    Ok(tables) => self.visited_in_order(
                        Scan::All,
                        database_name@,
                        tables@,
                        outcome,
                    ),
                },
    {
        let listing = self.table_repository.get_all_tables(database_name);
        match listing {
            Err(e) => Err(e),
            Ok(tables) => self.scan_in_order(Scan::All, database_name, &tables),
        }
    }

    /// Update what is known of the tables without foreign keys: each has
    /// its row count brought up to date; then a table that is known is
    /// left as it is, a new one is inserted. The tables are visited in the
    /// order in which the repository lists them, up to the first failure
    /// of a repository; a failure to list them is handed on.
    pub fn update_clean_tables_knowledge(&self, database_name: &str) -> (outcome: Result<
        (),
        String,
    >)
        ensures
            exists|listing: Result<Vec<Table>, String>| #[trigger]
                self.table_repository.clean_tables_outcome(database_name@, listing)
                    && match listing {
                    Err(e) => outcome == Err::<(), String>(e),
                    Ok(tables) => self.visited_in_order(
                        Scan::Clean,
                        database_name@,
                        tables@,
                        outcome,
                    ),
                },
    {
        let listing = self.table_repository.get_clean_tables(database_name);
        match listing {
            Err(e) => Err(e),
            Ok(tables) => self.scan_in_order(Scan::Clean, database_name, &tables),
        }
    }

    /// Update what is known of the tables that refer to themselves: a
    /// table that is known is stored anew, a new one is inserted. The
    /// tables are visited in the order in which the repository lists them,
    /// up to the first failure of a repository; a failure to list them is
    /// handed on.
    pub fn update_self_referencing_tables_knowledge(&self, database_name: &str) -> (outcome: Result<
        (),
        String,
    >)
        ensures
            exists|listing: Result<Vec<Table>, String>| #[trigger]
                self.table_repository.self_referencing_tables_outcome(database_name@, listing)
                    && match listing {
                    Err(e) => outcome == Err::<(), String>(e),
                    Ok(tables) => self.visited_in_order(
                        Scan::SelfReferencing,
                        database_name@,
                        tables@,
                        outcome,
                    ),
                },
    {
        let listing = self.table_repository.get_self_referencing_tables(database_name);
        match listing {
            Err(e) => Err(e),
            Ok(tables) => self.scan_in_order(Scan::SelfReferencing, database_name, &tables),
        }
    }
}

} // verus!
