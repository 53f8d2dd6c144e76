//! The statements that move a table: which columns they name, and how each
//! row of the source becomes one `INSERT`.

use crate::codec::{cell_literal, get_cell_value_by_column_name, CodecError};
use crate::collect::{collect, lemma_collect_error_stays, lemma_collect_next};
use crate::domain::row::{CellView, Literal, LiteralView, Row, row_views};
use crate::domain::two_column::{column_names, column_views, TwoColumn, TwoColumnView};
use crate::text::{join, join_strings, quote, quoted, str_eq, views};
use vstd::prelude::*;
use vstd::string::*;

verus! {

/// How a literal is written into a statement: the marker as the bare token
/// `NULL`, a text between single quotes with nothing inside it escaped.
pub open spec fn render(literal: LiteralView) -> Seq<char> {
    match literal {
        LiteralView::Null => "NULL"@,
        LiteralView::Value(s) => quoted(s),
    }
}

/// Writes a literal as it stands in a statement.
pub fn render_literal(literal: &Literal) -> (text: String)
    ensures
        text@ == render(literal@),
{
    match literal {
        Literal::Null => "NULL".to_owned(),
        Literal::Value(s) => quote(s.as_str()),
    }
}

/// Whether one of `columns` is called `name`.
pub open spec fn has_name(columns: Seq<TwoColumnView>, name: Seq<char>) -> bool {
    exists|i: int| 0 <= i < columns.len() && #[trigger] columns[i].name == name
}

/// Whether a column of the target is also a column of `source`, by name.
pub open spec fn named_in(source: Seq<TwoColumnView>) -> spec_fn(TwoColumnView) -> bool {
    |c: TwoColumnView| has_name(source, c.name)
}

/// The columns of the target whose names the source has too, in the
/// target's order.
pub open spec fn common_columns(target: Seq<TwoColumnView>, source: Seq<TwoColumnView>) -> Seq<
    TwoColumnView,
> {
    target.filter(named_in(source))
}

/// Whether one of `columns` is called `name`.
pub fn has_column(columns: &Vec<TwoColumn>, name: &str) -> (found: bool)
    ensures
        found == has_name(column_views(columns@), name@),
{
    let mut i: usize = 0;
    while i < columns.len()
        invariant
            i <= columns.len(),
            forall|j: int| 0 <= j < i ==> column_views(columns@)[j].name != name@,
        decreases columns.len() - i,
    {
        if str_eq(columns[i].name.as_str(), name) {
            assert(column_views(columns@)[i as int].name == name@);
            return true;
        }
        i += 1;
    }
    false
}

/// Reconciles the two column lists: keeps each column of the target that
/// the source has under the same name, and drops every other column of
/// either side.
pub fn final_columns(columns_target: &Vec<TwoColumn>, columns_source: &Vec<TwoColumn>) -> (columns:
    Vec<TwoColumn>)
    ensures
        column_views(columns@) == common_columns(
            column_views(columns_target@),
            column_views(columns_source@),
        ),
{
    let ghost target = column_views(columns_target@);
    let ghost source = column_views(columns_source@);
    let mut columns: Vec<TwoColumn> = Vec::new();
    let mut i: usize = 0;
    proof {
        reveal(Seq::filter);
        assert(column_views(columns@) =~= target.take(0).filter(named_in(source)));
    }
    while i < columns_target.len()
        invariant
            i <= columns_target.len(),
            target == column_views(columns_target@),
            source == column_views(columns_source@),
            column_views(columns@) == target.take(i as int).filter(named_in(source)),
        decreases columns_target.len() - i,
    {
        proof {
            reveal(Seq::filter);
            assert(target.take(i as int + 1).drop_last() == target.take(i as int));
            assert(target.take(i as int + 1).last() == columns_target@[i as int]@);
        }
        if has_column(columns_source, columns_target[i].name.as_str()) {
            let ghost before = column_views(columns@);
            columns.push(columns_target[i].duplicate());
            assert(column_views(columns@) =~= before.push(columns_target@[i as int]@));
        }
        i += 1;
    }
    assert(target.take(columns_target.len() as int) == target);
    columns
}

/// What stands under one column in a row.
pub open spec fn literal_under(row: Seq<CellView>) -> spec_fn(TwoColumnView) -> Result<
    LiteralView,
    CodecError,
> {
    |c: TwoColumnView| cell_literal(row, c.name)
}

/// The literals of `row` under each of `columns`, in their order; the error
/// of the first column that has none.
pub open spec fn row_literals(columns: Seq<TwoColumnView>, row: Seq<CellView>) -> Result<
    Seq<LiteralView>,
    CodecError,
> {
    collect(columns, literal_under(row))
}

/// Each of `values` as it is written into a statement.
pub open spec fn rendered(values: Seq<LiteralView>) -> Seq<Seq<char>> {
    values.map_values(|l: LiteralView| render(l))
}

/// The text of an `INSERT` of `values` under `columns` into `table`.
pub open spec fn insert_statement(
    table: Seq<char>,
    columns: Seq<TwoColumnView>,
    values: Seq<LiteralView>,
) -> Seq<char> {
    "INSERT INTO "@ + table + " ("@ + join(column_names(columns), ", "@) + ") VALUES ("@ + join(
        rendered(values),
        ", "@,
    ) + ")"@
}

/// The `INSERT` that carries `row` into `table` under `columns`.
pub open spec fn insert_query(
    table: Seq<char>,
    columns: Seq<TwoColumnView>,
    row: Seq<CellView>,
) -> Result<Seq<char>, CodecError> {
    match row_literals(columns, row) {
        Ok(values) => Ok(insert_statement(table, columns, values)),
        Err(e) => Err(e),
    }
}

/// Whether `text` is what `expected` asks for.
pub open spec fn text_matches(text: Result<String, CodecError>, expected: Result<
    Seq<char>,
    CodecError,
>) -> bool {
    match text {
        Ok(s) => expected == Ok::<Seq<char>, CodecError>(s@),
        Err(e) => expected == Err::<Seq<char>, CodecError>(e),
    }
}

/// Whether `texts` are what `expected` asks for.
pub open spec fn texts_match(texts: Result<Vec<String>, CodecError>, expected: Result<
    Seq<Seq<char>>,
    CodecError,
>) -> bool {
    match texts {
        Ok(v) => expected == Ok::<Seq<Seq<char>>, CodecError>(views(v@)),
        Err(e) => expected == Err::<Seq<Seq<char>>, CodecError>(e),
    }
}

/// The names of `columns`.
pub fn names_of(columns: &Vec<TwoColumn>) -> (names: Vec<String>)
    ensures
        views(names@) == column_names(column_views(columns@)),
{
    let mut names: Vec<String> = Vec::new();
    let mut i: usize = 0;
    while i < columns.len()
        invariant
            i <= columns.len(),
            views(names@) == column_names(column_views(columns@)).take(i as int),
        decreases columns.len() - i,
    {
        let ghost before = views(names@);
        names.push(columns[i].name.clone());
        assert(views(names@) =~= before.push(columns@[i as int].name@));
        i += 1;
        assert(views(names@) =~= column_names(column_views(columns@)).take(i as int));
    }
    assert(column_names(column_views(columns@)).take(columns.len() as int) == column_names(
        column_views(columns@),
    ));
    names
}

/// Builds the `INSERT` that carries one row of the source into the target
/// under the given columns. Fails where the row lacks one of the columns,
/// or holds under one of them a value that cannot be written out.
pub fn build_insert_query_2(table_name: &str, columns: &Vec<TwoColumn>, row: &Row) -> (query:
    Result<String, CodecError>)
    ensures
        text_matches(query, insert_query(table_name@, column_views(columns@), row@)),
{
    let ghost cols = column_views(columns@);
    let ghost f = literal_under(row@);
    let mut texts: Vec<String> = Vec::new();
    let ghost mut literals: Seq<LiteralView> = Seq::empty();
    let mut i: usize = 0;
    assert(views(texts@) =~= rendered(literals));
    while i < columns.len()
        invariant
            i <= columns.len(),
            cols == column_views(columns@),
            f == literal_under(row@),
            collect(cols.take(i as int), f) == Ok::<Seq<LiteralView>, CodecError>(literals),
            views(texts@) == rendered(literals),
        decreases columns.len() - i,
    {
        proof {
            lemma_collect_next(cols, f, i as int);
            assert(cols[i as int] == columns@[i as int]@);
        }
        match get_cell_value_by_column_name(row, columns[i].name.as_str()) {
            Ok(literal) => {
                let ghost before = views(texts@);
                let text = render_literal(&literal);
                texts.push(text);
                assert(views(texts@) =~= before.push(text@));
                proof {
                    literals = literals.push(literal@);
                }
                assert(views(texts@) =~= rendered(literals));
            },
            Err(e) => {
                proof {
                    lemma_collect_error_stays(cols, f, i as int + 1);
                }
                return Err(e);
            },
        }
        i += 1;
    }
    assert(cols.take(columns.len() as int) == cols);
    let names = names_of(columns);
    let mut query = String::new();
    query.append("INSERT INTO ");
    query.append(table_name);
    query.append(" (");
    query.append(join_strings(&names, ", ").as_str());
    query.append(") VALUES (");
    query.append(join_strings(&texts, ", ").as_str());
    query.append(")");
    assert(query@ =~= insert_statement(table_name@, cols, literals));
    Ok(query)
}

/// The `INSERT` of a row into `table` under `columns`.
pub open spec fn insert_of(table: Seq<char>, columns: Seq<TwoColumnView>) -> spec_fn(
    Seq<CellView>,
) -> Result<Seq<char>, CodecError> {
    |row: Seq<CellView>| insert_query(table, columns, row)
}

/// One `INSERT` for each of `rows`, in their order, under the columns that
/// target and source have in common; the error of the first row that cannot
/// be written.
pub open spec fn insert_queries(
    table: Seq<char>,
    columns_source: Seq<TwoColumnView>,
    columns_target: Seq<TwoColumnView>,
    rows: Seq<Seq<CellView>>,
) -> Result<Seq<Seq<char>>, CodecError> {
    collect(rows, insert_of(table, common_columns(columns_target, columns_source)))
}

/// Generates the statements that move the rows of the source: one `INSERT`
/// per row, in the order of the rows, each naming exactly the columns that
/// the target and the source have in common.
pub fn prepare_insert_queries(
    table_name: &str,
    columns_source: &Vec<TwoColumn>,
    columns_target: &Vec<TwoColumn>,
    rows: &Vec<Row>,
) -> (queries: Result<Vec<String>, CodecError>)
    ensures
        texts_match(
            queries,
            insert_queries(
                table_name@,
                column_views(columns_source@),
                column_views(columns_target@),
                row_views(rows@),
            ),
        ),
{
    let columns = final_columns(columns_target, columns_source);
    let ghost f = insert_of(table_name@, column_views(columns@));
    let ghost all = row_views(rows@);
    let mut queries: Vec<String> = Vec::new();
    let mut i: usize = 0;
    assert(views(queries@) =~= Seq::<Seq<char>>::empty());
    while i < rows.len()
        invariant
            i <= rows.len(),
            all == row_views(rows@),
            f == insert_of(table_name@, column_views(columns@)),
            column_views(columns@) == common_columns(
                column_views(columns_target@),
                column_views(columns_source@),
            ),
            collect(all.take(i as int), f) == Ok::<Seq<Seq<char>>, CodecError>(views(queries@)),
        decreases rows.len() - i,
    {
        proof {
            lemma_collect_next(all, f, i as int);
            assert(all[i as int] == rows@[i as int]@);
        }
        let ghost before = views(queries@);
        match build_insert_query_2(table_name, &columns, &rows[i]) {
            Ok(query) => {
                queries.push(query);
                assert(views(queries@) =~= before.push(query@));
            },
            Err(e) => {
                proof {
                    lemma_collect_error_stays(all, f, i as int + 1);
                }
                return Err(e);
            },
        }
        i += 1;
    }
    assert(all.take(rows.len() as int) == all);
    Ok(queries)
}

} // verus!
