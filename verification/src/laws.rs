//! What holds of every migration, proved from the definitions of the
//! engine and of the statement builders.

use crate::codec::{literal_of, CodecError};
use crate::collect::lemma_collect_ok;
use crate::domain::row::{CellValueView, CellView, LiteralView};
use crate::domain::two_column::TwoColumnView;
use crate::dependency::referenced_table;
use crate::engine::{MigrationView, Phase, RequestView, ResponseView};
use crate::statements::{
    common_columns, has_name, insert_of, insert_queries, insert_statement, named_in, render,
    row_literals,
};
use vstd::prelude::*;

verus! {

/// Whether a value is the database's NULL.
pub open spec fn is_absent(value: CellValueView) -> bool {
    match value {
        CellValueView::Int8(None) => true,
        CellValueView::Int4(None) => true,
        CellValueView::Varchar(None) => true,
        CellValueView::Bool(None) => true,
        CellValueView::Timestamp(None) => true,
        CellValueView::Numeric(None) => true,
        CellValueView::Text(None) => true,
        CellValueView::Date(None) => true,
        _ => false,
    }
}

/// The NULL marker stands for the absent values and for no other, whatever
/// the kind of the column.
pub proof fn law_null_marker_means_absent(value: CellValueView)
    ensures
        literal_of(value) == Some(LiteralView::Null) <==> is_absent(value),
{
}

/// The NULL marker is written as the bare token `NULL`. A text is written
/// between quotes, so that no text is written as the marker is: not the
/// empty text, and not the text `NULL`.
pub proof fn law_null_is_written_as_no_text(text: Seq<char>)
    ensures
        render(LiteralView::Null) == seq!['N', 'U', 'L', 'L'],
        render(LiteralView::Value(text)) == seq!['\''] + text + seq!['\''],
        render(LiteralView::Value(text)) != render(LiteralView::Null),
{
    reveal_strlit("NULL");
    assert(render(LiteralView::Null) =~= seq!['N', 'U', 'L', 'L']);
    assert(render(LiteralView::Value(text))[0] == '\'');
    assert(render(LiteralView::Null)[0] == 'N');
}

/// What a filter keeps are the items that satisfy its condition.
pub proof fn lemma_filter_members<A>(items: Seq<A>, keep: spec_fn(A) -> bool)
    ensures
        forall|x: A| #[trigger] items.filter(keep).contains(x) <==> (items.contains(x) && keep(x)),
    decreases items.len(),
{
    reveal(Seq::filter);
    if items.len() > 0 {
        let init = items.drop_last();
        let last = items.last();
        let kept = items.filter(keep);
        let before = init.filter(keep);
        lemma_filter_members(init, keep);
        assert(kept == if keep(last) {
            before.push(last)
        } else {
            before
        });
        assert forall|x: A| #[trigger] kept.contains(x) <==> (items.contains(x) && keep(x)) by {
            if kept.contains(x) {
                let i = choose|i: int| 0 <= i < kept.len() && kept[i] == x;
                if keep(last) && i == before.len() {
                    assert(items[items.len() - 1] == x);
                } else {
                    assert(before[i] == x);
                    assert(before.contains(x));
                    let j = choose|j: int| 0 <= j < init.len() && init[j] == x;
                    assert(items[j] == x);
                }
            }
            if items.contains(x) && keep(x) {
                let j = choose|j: int| 0 <= j < items.len() && items[j] == x;
                if j == items.len() - 1 {
                    assert(kept[before.len() as int] == x);
                } else {
                    assert(init[j] == x);
                    assert(init.contains(x));
                    assert(before.contains(x));
                    let i = choose|i: int| 0 <= i < before.len() && before[i] == x;
                    assert(kept[i] == x);
                }
            }
        }
    }
}

/// The columns that a migration writes are those that both sides have: a
/// name is among them exactly when the target has a column of that name and
/// the source has one too.
pub proof fn law_written_columns_are_on_both_sides(
    target: Seq<TwoColumnView>,
    source: Seq<TwoColumnView>,
    name: Seq<char>,
)
    ensures
        has_name(common_columns(target, source), name) <==> (has_name(target, name) && has_name(
            source,
            name,
        )),
{
    let common = common_columns(target, source);
    let keep = named_in(source);
    lemma_filter_members(target, keep);
    if has_name(common, name) {
        let i = choose|i: int| 0 <= i < common.len() && #[trigger] common[i].name == name;
        assert(common.contains(common[i]));
        assert(target.contains(common[i]) && keep(common[i]));
        let j = choose|j: int| 0 <= j < target.len() && target[j] == common[i];
        assert(target[j].name == name);
    }
    if has_name(target, name) && has_name(source, name) {
        let j = choose|j: int| 0 <= j < target.len() && #[trigger] target[j].name == name;
        assert(target.contains(target[j]) && keep(target[j]));
        assert(common.contains(target[j]));
        let i = choose|i: int| 0 <= i < common.len() && common[i] == target[j];
        assert(common[i].name == name);
    }
}

/// Where the statements can be generated, there is one for each row of the
/// source, in the order of the rows, and each is the `INSERT` of its row's
/// values under the columns that both sides have.
pub proof fn law_one_insert_per_row(
    table: Seq<char>,
    source: Seq<TwoColumnView>,
    target: Seq<TwoColumnView>,
    rows: Seq<Seq<CellView>>,
    i: int,
)
    requires
        insert_queries(table, source, target, rows) is Ok,
        0 <= i < rows.len(),
    ensures
        insert_queries(table, source, target, rows)->Ok_0.len() == rows.len(),
        row_literals(common_columns(target, source), rows[i]) is Ok,
        insert_queries(table, source, target, rows)->Ok_0[i] == insert_statement(
            table,
            common_columns(target, source),
            row_literals(common_columns(target, source), rows[i])->Ok_0,
        ),
{
    lemma_collect_ok(rows, insert_of(table, common_columns(target, source)));
    let statements = insert_queries(table, source, target, rows)->Ok_0;
    assert(insert_of(table, common_columns(target, source))(rows[i]) == Ok::<
        Seq<char>,
        CodecError,
    >(statements[i]));
}

/// A migration that finds as many rows in the target as in the source, be
/// it none or more, marks the table as exported and ends: it asks for no
/// statement to be executed, and nothing has failed. So a migration that is
/// run again after the target has taken every row changes nothing.
pub proof fn law_synced_table_needs_no_statement(
    table: Seq<char>,
    ancestors: Seq<Seq<char>>,
    depth_left: nat,
    source_rows: Seq<Seq<CellView>>,
    target_rows: Seq<Seq<CellView>>,
)
    requires
        source_rows.len() == target_rows.len(),
    ensures
        ({
            let start = MigrationView::start(table, ancestors, depth_left);
            let read_source = start.step(ResponseView::Rows(source_rows));
            let read_target = read_source.step(ResponseView::Rows(target_rows));
            let marked = read_target.step(ResponseView::Marked);
            &&& start.request() == RequestView::SourceRows
            &&& read_source.request() == RequestView::TargetRows
            &&& read_target.request() == RequestView::MarkExported
            &&& marked.request() == RequestView::Finished
            &&& marked.failed == Seq::<Seq<char>>::empty()
        }),
{
}

/// A migration that finds no table in the target marks the table as
/// exported and ends, without a statement.
pub proof fn law_missing_target_is_skipped(
    table: Seq<char>,
    ancestors: Seq<Seq<char>>,
    depth_left: nat,
    source_rows: Seq<Seq<CellView>>,
    target_rows: Seq<Seq<CellView>>,
)
    requires
        source_rows.len() != target_rows.len(),
    ensures
        ({
            let start = MigrationView::start(table, ancestors, depth_left);
            let read = start.step(ResponseView::Rows(source_rows)).step(
                ResponseView::Rows(target_rows),
            );
            let checked = read.step(ResponseView::Exists(false));
            &&& read.request() == RequestView::TargetExists
            &&& checked.request() == RequestView::MarkExported
            &&& checked.step(ResponseView::Marked).request() == RequestView::Finished
        }),
{
}

/// The state after the first `done` statements have each gone through and
/// been followed by the export mark.
pub open spec fn after_successes(planned: MigrationView, done: nat) -> MigrationView
    decreases done,
{
    if done == 0 {
        planned
    } else {
        after_successes(planned, (done - 1) as nat).step(ResponseView::Executed).step(
            ResponseView::Marked,
        )
    }
}

/// While every statement goes through, the migration asks for each
/// statement once, in order, marks the table as exported after each, and
/// ends after the last with nothing failed. With the law on the number of
/// statements: a target that was empty then holds one row for each row of
/// the source, and the next migration of the table finds it synced.
pub proof fn law_statements_run_once_in_order(planned: MigrationView, done: nat)
    requires
        planned.well_formed(),
        planned.phase == Phase::Statement,
        planned.next == 0,
        done <= planned.statements.len(),
    ensures
        ({
            let now = after_successes(planned, done);
            &&& now.statements == planned.statements
            &&& now.failed == planned.failed
            &&& now.next == done
            &&& done < planned.statements.len() ==> {
                &&& now.request() == RequestView::Execute(planned.statements[done as int])
                &&& now.step(ResponseView::Executed).request() == RequestView::MarkExported
            }
            &&& done == planned.statements.len() ==> now.request() == RequestView::Finished
        }),
    decreases done,
{
    if done > 0 {
        law_statements_run_once_in_order(planned, (done - 1) as nat);
    }
}

/// A statement that is refused with a text naming a table that may be
/// migrated first has that table migrated, and is then issued once more.
/// If it goes through, the table is marked as exported; if it is refused
/// again, it is put down as failed after the failures of the referenced
/// table, and the migration turns to the next statement.
pub proof fn law_referenced_table_is_migrated_first(
    state: MigrationView,
    error: Seq<char>,
    referenced: Seq<char>,
    failed_inside: Seq<Seq<char>>,
    second_error: Seq<char>,
)
    requires
        state.well_formed(),
        state.phase == Phase::Statement,
        referenced_table(error) == Some(referenced),
        state.may_migrate_first(referenced),
    ensures
        ({
            let statement = state.statements[state.next as int];
            let refused = state.step(ResponseView::Rejected(error));
            let resumed = refused.step(ResponseView::Migrated(failed_inside));
            let refused_again = resumed.step(ResponseView::Rejected(second_error));
            &&& state.request() == RequestView::Execute(statement)
            &&& refused.request() == RequestView::MigrateFirst(referenced)
            &&& resumed.request() == RequestView::Execute(statement)
            &&& resumed.step(ResponseView::Executed).request() == RequestView::MarkExported
            &&& refused_again.failed == (state.failed + failed_inside).push(statement)
            &&& refused_again.next == state.next + 1
            &&& !(refused_again.request() is MigrateFirst)
        }),
{
}

/// A statement that is refused with a text naming the migration's own
/// table, a table that waits for this migration, or any table once the
/// depth is used up, is put down as failed at once: no migration is started
/// for it.
pub proof fn law_cycles_are_not_followed(
    state: MigrationView,
    error: Seq<char>,
    referenced: Seq<char>,
)
    requires
        state.well_formed(),
        state.phase == Phase::Statement,
        referenced_table(error) == Some(referenced),
        !state.may_migrate_first(referenced),
    ensures
        ({
            let refused = state.step(ResponseView::Rejected(error));
            &&& !(refused.request() is MigrateFirst)
            &&& refused.failed == state.failed.push(state.statements[state.next as int])
            &&& refused.next == state.next + 1
        }),
{
}

/// Every step of an unfinished migration keeps its state well-formed and
/// brings it nearer to its end, whatever the response: no run goes on for
/// ever.
pub proof fn law_every_step_makes_progress(state: MigrationView, response: ResponseView)
    requires
        state.well_formed(),
        !state.finished(),
    ensures
        state.step(response).well_formed(),
        state.step(response).nearer_than(state),
{
}

} // verus!
