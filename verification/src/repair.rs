//! The repair of numeric columns: the statements that write the exact text
//! of each number of the source into the target once more.

use crate::codec::{cell_literal, get_cell_value_by_column_name, id_of, row_id, CodecError};
use crate::collect::{collect, lemma_collect_error_stays, lemma_collect_next};
use crate::domain::row::{row_views, CellView, LiteralView, Row};
use crate::domain::two_column::{column_views, TwoColumn, TwoColumnView};
use crate::statements::{common_columns, final_columns, render, render_literal, texts_match, text_matches};
use crate::text::{
    decimal_text, duplicate_strings, i64_to_decimal, join, join_strings, str_eq, views,
};
use vstd::prelude::*;
use vstd::string::*;

verus! {

/// The columns whose declared type is `numeric`.
pub open spec fn declared_numeric() -> spec_fn(TwoColumnView) -> bool {
    |c: TwoColumnView| c.data_type == "numeric"@
}

/// The columns of `columns` whose declared type is `numeric`, in their
/// order.
pub open spec fn numeric_columns(columns: Seq<TwoColumnView>) -> Seq<TwoColumnView> {
    columns.filter(declared_numeric())
}

/// Picks the columns whose declared type is `numeric`.
pub fn numeric_columns_of(columns: &Vec<TwoColumn>) -> (numeric: Vec<TwoColumn>)
    ensures
        column_views(numeric@) == numeric_columns(column_views(columns@)),
{
    let ghost all = column_views(columns@);
    let mut numeric: Vec<TwoColumn> = Vec::new();
    let mut i: usize = 0;
    proof {
        reveal(Seq::filter);
        assert(column_views(numeric@) =~= numeric_columns(all.take(0)));
    }
    while i < columns.len()
        invariant
            i <= columns.len(),
            all == column_views(columns@),
            column_views(numeric@) == numeric_columns(all.take(i as int)),
        decreases columns.len() - i,
    {
        proof {
            reveal(Seq::filter);
            assert(all.take(i as int + 1).drop_last() == all.take(i as int));
            assert(all.take(i as int + 1).last() == columns@[i as int]@);
        }
        if str_eq(columns[i].data_type.as_str(), "numeric") {
            let ghost before = column_views(numeric@);
            numeric.push(columns[i].duplicate());
            assert(column_views(numeric@) =~= before.push(columns@[i as int]@));
        }
        i += 1;
    }
    assert(all.take(columns.len() as int) == all);
    numeric
}

/// Whether one of `columns` is declared `numeric`.
pub open spec fn has_numeric_column(columns: Seq<TwoColumnView>) -> bool {
    exists|i: int| 0 <= i < columns.len() && #[trigger] columns[i].data_type == "numeric"@
}

/// Whether a table with these columns has a numeric column to repair.
pub fn check_numeric_column(columns: &Vec<TwoColumn>) -> (found: bool)
    ensures
        found == has_numeric_column(column_views(columns@)),
{
    let mut i: usize = 0;
    while i < columns.len()
        invariant
            i <= columns.len(),
            forall|j: int| 0 <= j < i ==> column_views(columns@)[j].data_type != "numeric"@,
        decreases columns.len() - i,
    {
        if str_eq(columns[i].data_type.as_str(), "numeric") {
            assert(column_views(columns@)[i as int].data_type == "numeric"@);
            return true;
        }
        i += 1;
    }
    false
}

/// The assignment of a literal to a column.
pub open spec fn assignment(column: Seq<char>, literal: LiteralView) -> Seq<char> {
    column + " = "@ + render(literal)
}

/// The assignment of what stands under a column in `row` to that column.
pub open spec fn assignment_under(row: Seq<CellView>) -> spec_fn(TwoColumnView) -> Result<
    Seq<char>,
    CodecError,
> {
    |c: TwoColumnView|
        match cell_literal(row, c.name) {
            Ok(literal) => Ok(assignment(c.name, literal)),
            Err(e) => Err(e),
        }
}

/// The text of an `UPDATE` of the row `id` of `table` with `assignments`.
pub open spec fn update_statement(table: Seq<char>, assignments: Seq<Seq<char>>, id: i64) -> Seq<
    char,
> {
    "UPDATE "@ + table + " SET "@ + join(assignments, ", "@) + " WHERE id = "@ + decimal_text(
        id as int,
    )
}

/// The `UPDATE` that writes the values of `row` under `columns` into the
/// row of the same `id`: an error where the row lacks one of the columns or
/// holds a value that cannot be written out, and else where it has no
/// integer under `id`.
pub open spec fn update_query(
    table: Seq<char>,
    columns: Seq<TwoColumnView>,
    row: Seq<CellView>,
) -> Result<Seq<char>, CodecError> {
    match collect(columns, assignment_under(row)) {
        Err(e) => Err(e),
        Ok(assignments) => match id_of(row) {
            None => Err(CodecError::MissingId),
            Some(id) => Ok(update_statement(table, assignments, id)),
        },
    }
}

/// Builds the `UPDATE` that repairs one row.
pub fn build_update_query(table_name: &str, columns: &Vec<TwoColumn>, row: &Row) -> (query: Result<
    String,
    CodecError,
>)
    ensures
        text_matches(query, update_query(table_name@, column_views(columns@), row@)),
{
    let ghost cols = column_views(columns@);
    let ghost f = assignment_under(row@);
    let mut pairs: Vec<String> = Vec::new();
    let mut i: usize = 0;
    assert(views(pairs@) =~= Seq::<Seq<char>>::empty());
    while i < columns.len()
        invariant
            i <= columns.len(),
            cols == column_views(columns@),
            f == assignment_under(row@),
            collect(cols.take(i as int), f) == Ok::<Seq<Seq<char>>, CodecError>(views(pairs@)),
        decreases columns.len() - i,
    {
        proof {
            lemma_collect_next(cols, f, i as int);
            assert(cols[i as int] == columns@[i as int]@);
        }
        match get_cell_value_by_column_name(row, columns[i].name.as_str()) {
            Ok(literal) => {
                let ghost before = views(pairs@);
                let mut pair = columns[i].name.clone();
                pair.append(" = ");
                pair.append(render_literal(&literal).as_str());
                pairs.push(pair);
                assert(views(pairs@) =~= before.push(pair@));
            },
            Err(e) => {
                proof {
                    lemma_collect_error_stays(cols, f, i as int + 1);
                }
                return Err(e);
            },
        }
        i += 1;
    }
    assert(cols.take(columns.len() as int) == cols);
    match row_id(row) {
        None => Err(CodecError::MissingId),
        Some(id) => {
            let mut query = String::new();
            query.append("UPDATE ");
            query.append(table_name);
            query.append(" SET ");
            query.append(join_strings(&pairs, ", ").as_str());
            query.append(" WHERE id = ");
            query.append(i64_to_decimal(id).as_str());
            assert(query@ =~= update_statement(table_name@, views(pairs@), id));
            Ok(query)
        },
    }
}

/// The `UPDATE` of a row of `table` under `columns`.
pub open spec fn update_of(table: Seq<char>, columns: Seq<TwoColumnView>) -> spec_fn(
    Seq<CellView>,
) -> Result<Seq<char>, CodecError> {
    |row: Seq<CellView>| update_query(table, columns, row)
}

/// The columns that a repair writes: the numeric columns of the target that
/// are numeric columns of the source too, by name.
pub open spec fn repaired_columns(
    columns_source: Seq<TwoColumnView>,
    columns_target: Seq<TwoColumnView>,
) -> Seq<TwoColumnView> {
    common_columns(numeric_columns(columns_target), numeric_columns(columns_source))
}

/// One `UPDATE` for each of `rows`, in their order, under the repaired
/// columns; the error of the first row that cannot be written.
pub open spec fn update_queries(
    table: Seq<char>,
    columns_source: Seq<TwoColumnView>,
    columns_target: Seq<TwoColumnView>,
    rows: Seq<Seq<CellView>>,
) -> Result<Seq<Seq<char>>, CodecError> {
    collect(rows, update_of(table, repaired_columns(columns_source, columns_target)))
}

/// Generates the statements that repair the numeric columns of a table:
/// for each row of the source one `UPDATE` of the target's row of the same
/// `id`, which sets each numeric column that both sides have to the value
/// that the source holds.
pub fn prepare_update_queries(
    table_name: &str,
    columns_source: &Vec<TwoColumn>,
    columns_target: &Vec<TwoColumn>,
    rows: &Vec<Row>,
) -> (queries: Result<Vec<String>, CodecError>)
    ensures
        texts_match(
            queries,
            update_queries(
                table_name@,
                column_views(columns_source@),
                column_views(columns_target@),
                row_views(rows@),
            ),
        ),
{
    let numeric_source = numeric_columns_of(columns_source);
    let numeric_target = numeric_columns_of(columns_target);
    let columns = final_columns(&numeric_target, &numeric_source);
    let ghost f = update_of(table_name@, column_views(columns@));
    let ghost all = row_views(rows@);
    let mut queries: Vec<String> = Vec::new();
    let mut i: usize = 0;
    assert(views(queries@) =~= Seq::<Seq<char>>::empty());
    while i < rows.len()
        invariant
            i <= rows.len(),
            all == row_views(rows@),
            f == update_of(table_name@, column_views(columns@)),
            column_views(columns@) == repaired_columns(
                column_views(columns_source@),
                column_views(columns_target@),
            ),
            collect(all.take(i as int), f) == Ok::<Seq<Seq<char>>, CodecError>(views(queries@)),
        decreases rows.len() - i,
    {
        proof {
            lemma_collect_next(all, f, i as int);
            assert(all[i as int] == rows@[i as int]@);
        }
        let ghost before = views(queries@);
        match build_update_query(table_name, &columns, &rows[i]) {
            Ok(query) => {
                queries.push(query);
                assert(views(queries@) =~= before.push(query@));
            },
            Err(e) => {
                proof {
                    lemma_collect_error_stays(all, f, i as int + 1);
                }
                return Err(e);
            },
        }
        i += 1;
    }
    assert(all.take(rows.len() as int) == all);
    Ok(queries)
}

/// The query that reads the exact text of one number: the column cast to
/// text, in the row of `table` whose `id` is `row_id`.
pub open spec fn numeric_text_statement(column: Seq<char>, table: Seq<char>, row_id: i64) -> Seq<
    char,
> {
    "SELECT "@ + column + "::text FROM "@ + table + " WHERE id = "@ + decimal_text(row_id as int)
}

/// Writes the query that reads the exact text of one number from the
/// source.
pub fn numeric_text_query(column_name: &str, table_name: &str, row_id: i64) -> (query: String)
    ensures
        query@ == numeric_text_statement(column_name@, table_name@, row_id),
{
    let mut query = String::new();
    query.append("SELECT ");
    query.append(column_name);
    query.append("::text FROM ");
    query.append(table_name);
    query.append(" WHERE id = ");
    query.append(i64_to_decimal(row_id).as_str());
    assert(query@ =~= numeric_text_statement(column_name@, table_name@, row_id));
    query
}

/// The `id` under which the exact text of a row's numbers is looked up: the
/// integer under `id`, and 0 where the row has none.
pub fn lookup_id(row: &Row) -> (id: i64)
    ensures
        id == match id_of(row@) {
            Some(id) => id,
            None => 0i64,
        },
{
    match row_id(row) {
        Some(id) => id,
        None => 0,
    }
}

/// The condition that selects from the knowledge store the tables of
/// `database` that hold rows.
pub open spec fn tables_with_rows_condition(database: Seq<char>) -> Seq<char> {
    "WHERE row_count > 0 AND \"database\" = '"@ + database + "'"@
}

/// Writes the condition that selects the tables of `database` that hold
/// rows.
pub fn condition_tables_with_rows(database_name: &str) -> (condition: String)
    ensures
        condition@ == tables_with_rows_condition(database_name@),
{
    let mut condition = String::new();
    condition.append("WHERE row_count > 0 AND \"database\" = '");
    condition.append(database_name);
    condition.append("'");
    assert(condition@ =~= tables_with_rows_condition(database_name@));
    condition
}

/// The first `limit` of `tables`; all of them where `limit` is not
/// positive or there are fewer.
pub open spec fn limited(tables: Seq<Seq<char>>, limit: i8) -> Seq<Seq<char>> {
    if limit <= 0 || limit > tables.len() {
        tables
    } else {
        tables.take(limit as int)
    }
}

/// Cuts the list of the tables to repair down to its first `limit`; a
/// limit of 0 stands for no limit.
pub fn get_tables_numeric_wrong_data(tables_to_fix: &Vec<String>, limit: i8) -> (tables: Vec<
    String,
>)
    ensures
        views(tables@) == limited(views(tables_to_fix@), limit),
{
    if limit <= 0 || (limit as usize) > tables_to_fix.len() {
        return duplicate_strings(tables_to_fix);
    }
    let count: usize = limit as usize;
    let mut tables: Vec<String> = Vec::new();
    let mut i: usize = 0;
    assert(views(tables@) =~= views(tables_to_fix@).take(0));
    while i < count
        invariant
            i <= count <= tables_to_fix.len(),
            views(tables@) == views(tables_to_fix@).take(i as int),
        decreases count - i,
    {
        let ghost before = views(tables@);
        tables.push(tables_to_fix[i].clone());
        assert(views(tables@) =~= before.push(tables_to_fix@[i as int]@));
        i += 1;
        assert(views(tables@) =~= views(tables_to_fix@).take(i as int));
    }
    tables
}

} // verus!
