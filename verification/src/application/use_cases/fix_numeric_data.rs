//! Repairing numeric data that was written with a decimal comma.

use crate::application::repositories::knowledge_repository::KnowledgeRepository;
use crate::application::repositories::table_repository::TableRepository;
use crate::domain::table::Table;
use crate::domain::two_column::{column_views, TwoColumn, TwoColumnView};
use crate::text::{contains_text, text_contains, views};
use std::rc::Rc;
use vstd::prelude::*;
use vstd::string::*;

verus! {

/// Service for fixing numeric data errors.
pub struct FixNumericDataService<T: TableRepository, K: KnowledgeRepository> {
    pub table_repository: Rc<T>,
    pub knowledge_repository: Rc<K>,
}

/// Whether a declared type is a numeric one: its name holds the name of one
/// of the numeric types.
pub open spec fn is_numeric_type(data_type: Seq<char>) -> bool {
    ||| contains_text(data_type, "smallint"@)
    ||| contains_text(data_type, "integer"@)
    ||| contains_text(data_type, "bigint"@)
    ||| contains_text(data_type, "decimal"@)
    ||| contains_text(data_type, "numeric"@)
    ||| contains_text(data_type, "real"@)
    ||| contains_text(data_type, "double precision"@)
    ||| contains_text(data_type, "smallserial"@)
    ||| contains_text(data_type, "serial"@)
    ||| contains_text(data_type, "bigserial"@)
}

/// The statement that puts decimal points in the place of decimal commas in
/// one column of a table, in the values that hold nothing but digits,
/// commas and points.
pub open spec fn fix_statement(table: Seq<char>, column: Seq<char>) -> Seq<char> {
    "UPDATE "@ + table + " SET "@ + column + " = REPLACE("@ + column + ", ',', '.') WHERE "@
        + column + " ~ ',' AND "@ + column + " !~ '[^0-9,\\.]'"@
}

/// The columns of numeric type.
pub open spec fn numeric() -> spec_fn(TwoColumnView) -> bool {
    |c: TwoColumnView| is_numeric_type(c.data_type)
}

/// The statements that repair a table: one for each of its numeric columns,
/// in the order of the columns.
pub open spec fn fix_statements(table: Seq<char>, columns: Seq<TwoColumnView>) -> Seq<Seq<char>> {
    columns.filter(numeric()).map_values(|c: TwoColumnView| fix_statement(table, c.name))
}

/// Whether a declared type is a numeric one.
pub fn numeric_type(data_type: &str) -> (numeric: bool)
    ensures
        numeric == is_numeric_type(data_type@),
{
    text_contains(data_type, "smallint") || text_contains(data_type, "integer") || text_contains(
        data_type,
        "bigint",
    ) || text_contains(data_type, "decimal") || text_contains(data_type, "numeric")
        || text_contains(data_type, "real") || text_contains(data_type, "double precision")
        || text_contains(data_type, "smallserial") || text_contains(data_type, "serial")
        || text_contains(data_type, "bigserial")
}

/// Writes the statement that repairs one column.
pub fn fix_query(table_name: &str, column_name: &str) -> (query: String)
    ensures
        query@ == fix_statement(table_name@, column_name@),
{
    let mut query = String::new();
    query.append("UPDATE ");
    query.append(table_name);
    query.append(" SET ");
    query.append(column_name);
    query.append(" = REPLACE(");
    query.append(column_name);
    query.append(", ',', '.') WHERE ");
    query.append(column_name);
    query.append(" ~ ',' AND ");
    query.append(column_name);
    query.append(" !~ '[^0-9,\\.]'");
    assert(query@ =~= fix_statement(table_name@, column_name@));
    query
}

/// Plans the repair of a table from its columns: the statements to
/// execute, in order.
pub fn plan_fix(table_name: &str, columns: &Vec<TwoColumn>) -> (queries: Vec<String>)
    ensures
        views(queries@) == fix_statements(table_name@, column_views(columns@)),
{
    let ghost all = column_views(columns@);
    let mut queries: Vec<String> = Vec::new();
    let mut i: usize = 0;
    proof {
        reveal(Seq::filter);
        assert(views(queries@) =~= fix_statements(table_name@, all.take(0)));
    }
    while i < columns.len()
        invariant
            i <= columns.len(),
            all == column_views(columns@),
            views(queries@) == fix_statements(table_name@, all.take(i as int)),
        decreases columns.len() - i,
    {
        proof {
            reveal(Seq::filter);
            assert(all.take(i as int + 1).drop_last() == all.take(i as int));
            assert(all.take(i as int + 1).last() == columns@[i as int]@);
        }
        if numeric_type(columns[i].data_type.as_str()) {
            let ghost before = views(queries@);
            let query = fix_query(table_name, columns[i].name.as_str());
            queries.push(query);
            assert(views(queries@) =~= before.push(query@));
            assert(views(queries@) =~= fix_statements(table_name@, all.take(i as int + 1)));
        }
        i += 1;
    }
    assert(all.take(columns.len() as int) == all);
    queries
}

impl<T: TableRepository, K: KnowledgeRepository> FixNumericDataService<T, K> {
    /// Create a new service over the two repositories.
    pub fn new(table_repository: Rc<T>, knowledge_repository: Rc<K>) -> (service: Self)
        ensures
            service.table_repository == table_repository,
            service.knowledge_repository == knowledge_repository,
    {
        Self { table_repository, knowledge_repository }
    }

    /// Whether each of the first `upto` of `statements` was executed on
    /// `database` and went through.
    pub open spec fn went_through(
        &self,
        database: Seq<char>,
        statements: Seq<Seq<char>>,
        upto: int,
    ) -> bool {
        forall|i: int|
            0 <= i < upto ==> #[trigger] self.table_repository.execute_outcome(
                database,
                statements[i],
                Ok(()),
            )
    }

    /// Whether `outcome` is what came of executing `statements` on
    /// `database`, in order, up to the first that fails: success where each
    /// went through, and else the failure of one of them after all before
    /// it went through.
    pub open spec fn executed(
        &self,
        database: Seq<char>,
        statements: Seq<Seq<char>>,
        outcome: Result<(), String>,
    ) -> bool {
        match outcome {
            Ok(_) => self.went_through(database, statements, statements.len() as int),
            Err(e) => exists|j: int|
                0 <= j < statements.len() && self.went_through(database, statements, j)
                    && #[trigger] self.table_repository.execute_outcome(
                    database,
                    statements[j],
                    Err(e),
                ),
        }
    }

    /// Whether `outcome` is what came of repairing `table`: the failure to
    /// read its columns, or, with its columns read, what came of executing
    /// the statements that repair them.
    pub open spec fn repaired(
        &self,
        database: Seq<char>,
        table: Seq<char>,
        outcome: Result<(), String>,
    ) -> bool {
        exists|read: Result<Vec<TwoColumn>, String>| #[trigger]
            self.table_repository.columns_outcome(database, table, read) && match read {
                Err(e) => outcome == Err::<(), String>(e),
                Ok(columns) => self.executed(
                    database,
                    fix_statements(table, column_views(columns@)),
                    outcome,
                ),
            }
    }

    /// Whether each of the first `upto` of `tables` was repaired.
    pub open spec fn all_repaired(&self, database: Seq<char>, tables: Seq<Table>, upto: int) -> bool {
        forall|i: int|
            0 <= i < upto ==> #[trigger] self.repaired(database, tables[i].name@, Ok(()))
    }

    /// Whether `outcome` is what came of repairing `tables`, in order, up to
    /// the first whose repair fails.
    pub open spec fn repaired_in_order(
        &self,
        database: Seq<char>,
        tables: Seq<Table>,
        outcome: Result<(), String>,
    ) -> bool {
        match outcome {
            Ok(_) => self.all_repaired(database, tables, tables.len() as int),
            Err(e) => exists|j: int|
                0 <= j < tables.len() && self.all_repaired(database, tables, j)
                    && #[trigger] self.repaired(database, tables[j].name@, Err(e)),
        }
    }

    /// Repairs the numeric columns of a table: reads its columns, and
    /// executes the statements that [`plan_fix`] gives for them, in order,
    /// up to the first that fails. Fails as the repository fails.
    pub fn fix_numeric_data(&self, database_name: &str, table_name: &str) -> (outcome: Result<
        (),
        String,
    >)
        ensures
            self.repaired(database_name@, table_name@, outcome),
    {
        let read = self.table_repository.get_columns(database_name, table_name);
        let columns = match read {
            Ok(columns) => columns,
            Err(e) => {
                return Err(e);
            },
        };
        let queries = plan_fix(table_name, &columns);
        let ghost statements = fix_statements(table_name@, column_views(columns@));
        let mut i: usize = 0;
        while i < queries.len()
            invariant
                i <= queries.len(),
                views(queries@) == statements,
                statements == fix_statements(table_name@, column_views(columns@)),
                self.table_repository.columns_outcome(database_name@, table_name@, Ok(columns)),
                self.went_through(database_name@, statements, i as int),
            decreases queries.len() - i,
        {
            assert(statements[i as int] == queries@[i as int]@);
            let done = self.table_repository.execute_query(database_name, queries[i].as_str());
            match done {
                Ok(_unit) => {
                    assert(done == Ok::<(), String>(()));
                },
                Err(e) => {
                    assert(self.executed(database_name@, statements, Err(e)));
                    return Err(e);
                },
            }
            i += 1;
        }
        assert(self.executed(database_name@, statements, Ok(())));
        Ok(())
    }

    /// Repairs the numeric columns of every table of a database, in the
    /// order in which the repository lists them, up to the first table
    /// whose repair fails. A failure to list the tables is handed on, and
    /// nothing is repaired then.
    pub fn fix_all_numeric_data(&self, database_name: &str) -> (outcome: Result<(), String>)
        ensures
            exists|listing: Result<Vec<Table>, String>| #[trigger]
                self.table_repository.all_tables_outcome(database_name@, listing) && match listing {
                    Err(e) => outcome == Err::<(), String>(e),
                    Ok(tables) => self.repaired_in_order(database_name@, tables@, outcome),
                },
    {
        let listing = self.table_repository.get_all_tables(database_name);
        let tables = match listing {
            Ok(tables) => tables,
            Err(e) => {
                return Err(e);
            },
        };
        let mut i: usize = 0;
        while i < tables.len()
            invariant
                i <= tables.len(),
                self.table_repository.all_tables_outcome(database_name@, Ok(tables)),
                self.all_repaired(database_name@, tables@, i as int),
            decreases tables.len() - i,
        {
            let done = self.fix_numeric_data(database_name, tables[i].name.as_str());
            match done {
                Ok(_unit) => {
                    assert(done == Ok::<(), String>(()));
                },
                Err(e) => {
                    assert(self.repaired_in_order(database_name@, tables@, Err(e)));
                    return Err(e);
                },
            }
            i += 1;
        }
        assert(self.repaired_in_order(database_name@, tables@, Ok(())));
        Ok(())
    }

    /// Whether a declared type is a numeric one.
    pub fn is_numeric_column(&self, data_type: &str) -> (numeric: bool)
        ensures
            numeric == is_numeric_type(data_type@),
    {
        numeric_type(data_type)
    }

    /// Writes the statement that repairs one column of a table.
    pub fn build_fix_numeric_data_query(&self, table_name: &str, column_name: &str) -> (query:
        Result<String, String>)
        ensures
            query matches Ok(text) && text@ == fix_statement(table_name@, column_name@),
    {
        Ok(fix_query(table_name, column_name))
    }
}

} // verus!
