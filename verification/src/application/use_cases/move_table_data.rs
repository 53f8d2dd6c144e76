//! Moving the data of a table from the source to the target.

use crate::application::repositories::knowledge_repository::KnowledgeRepository;
use crate::application::repositories::table_repository::TableRepository;
use crate::dependency::referenced_table;
use crate::domain::row::Row;
use crate::domain::table::{build_base_simple_table, fresh_table, Table};
use crate::domain::two_column::{column_views, TwoColumn};
use crate::engine::{
    codec_error_message, codec_message, response_views, Migration, MigrationView, Phase, Request,
    RequestView, Response,
};
use crate::text::views;
use crate::statements::{build_insert_query_2, insert_query};
use std::rc::Rc;
use vstd::prelude::*;
use vstd::string::*;

verus! {

/// How many migrations may be started one inside the other before a
/// statement that refers to yet another table is put down as failed.
pub const MAX_DEPENDENCY_DEPTH: usize = 64;

/// Service for moving the data of a table from one database to another.
pub struct MoveTableDataService<T: TableRepository, K: KnowledgeRepository> {
    pub table_repository: Rc<T>,
    pub knowledge_repository: Rc<K>,
}

/// Whether `text` is the statement that `expected` asks for, or the reason
/// for which there is none.
pub open spec fn query_matches(text: Result<String, String>, expected: Result<
    Seq<char>,
    crate::codec::CodecError,
>) -> bool {
    match text {
        Ok(query) => expected == Ok::<Seq<char>, crate::codec::CodecError>(query@),
        Err(reason) => expected is Err && reason@ == codec_message(expected->Err_0),
    }
}

impl<T: TableRepository, K: KnowledgeRepository> MoveTableDataService<T, K> {
    /// Create a new service over the two repositories.
    pub fn new(table_repository: Rc<T>, knowledge_repository: Rc<K>) -> (service: Self)
        ensures
            service.table_repository == table_repository,
            service.knowledge_repository == knowledge_repository,
    {
        Self { table_repository, knowledge_repository }
    }

    /// Whether `outcome` is what the table repository gave when it was asked
    /// whether the table `table` exists in `database`, with a fresh record
    /// of that table.
    pub open spec fn existence_outcome(
        &self,
        database: Seq<char>,
        table: Seq<char>,
        outcome: Result<bool, String>,
    ) -> bool {
        exists|record: Table|
            record@ == fresh_table(table, database)
                && #[trigger] self.table_repository.table_exists_outcome(record, outcome)
    }

    /// Whether `outcome` is what the repositories gave when they were asked
    /// for what `request` names, in the migration of `table` from `source`
    /// to `target`.
    pub open spec fn answers(
        &self,
        source: Seq<char>,
        target: Seq<char>,
        table: Seq<char>,
        request: RequestView,
        outcome: Result<Response, String>,
    ) -> bool {
        match request {
            RequestView::SourceRows => match outcome {
                Ok(Response::Rows(rows)) => self.table_repository.rows_outcome(source, table, Ok(rows)),
                Err(e) => self.table_repository.rows_outcome(source, table, Err(e)),
                _ => false,
            },
            RequestView::TargetRows => match outcome {
                Ok(Response::Rows(rows)) => self.table_repository.rows_outcome(target, table, Ok(rows)),
                Err(e) => self.table_repository.rows_outcome(target, table, Err(e)),
                _ => false,
            },
            RequestView::TargetExists => match outcome {
                Ok(Response::Exists(found)) => self.existence_outcome(target, table, Ok(found)),
                Err(e) => self.existence_outcome(target, table, Err(e)),
                _ => false,
            },
            RequestView::SourceColumns => match outcome {
                Ok(Response::Columns(columns)) => self.table_repository.columns_outcome(
                    source,
                    table,
                    Ok(columns),
                ),
                Err(e) => self.table_repository.columns_outcome(source, table, Err(e)),
                _ => false,
            },
            RequestView::TargetColumns => match outcome {
                Ok(Response::Columns(columns)) => self.table_repository.columns_outcome(
                    target,
                    table,
                    Ok(columns),
                ),
                Err(e) => self.table_repository.columns_outcome(target, table, Err(e)),
                _ => false,
            },
            RequestView::Execute(query) => match outcome {
                Ok(Response::Executed) => self.table_repository.execute_outcome(target, query, Ok(())),
                Ok(Response::Rejected(e)) => self.table_repository.execute_outcome(
                    target,
                    query,
                    Err(e),
                ),
                _ => false,
            },
            RequestView::MarkExported => match outcome {
                Ok(Response::Marked) => self.knowledge_repository.update_export_status_outcome(
                    table,
                    true,
                    Ok(()),
                ),
                Err(e) => self.knowledge_repository.update_export_status_outcome(table, true, Err(e)),
                _ => false,
            },
            _ => false,
        }
    }

    /// The state in which the migration of `referenced` starts inside the
    /// migration that started in `start`: the table of `start` joins those
    /// that wait, and one level of depth is used up.
    pub open spec fn start_inside(start: MigrationView, referenced: Seq<char>) -> MigrationView {
        MigrationView::start(
            referenced,
            start.ancestors.push(start.table),
            (start.depth_left - 1) as nat,
        )
    }

    /// Whether `response` is what came of the request that the migration
    /// makes in `state`. For a table to migrate first, it is the word that
    /// the table was migrated, with the statements that failed for good in
    /// what `inside` takes for an outcome of that table's migration inside
    /// the migration that started in `start`. For every other request it
    /// is what the repositories gave.
    pub open spec fn answered_in(
        &self,
        source: Seq<char>,
        target: Seq<char>,
        start: MigrationView,
        state: MigrationView,
        response: Response,
        inside: spec_fn(MigrationView, Result<Vec<String>, String>) -> bool,
    ) -> bool {
        match state.request() {
            RequestView::MigrateFirst(referenced) => match response {
                Response::Migrated(failed) => inside(
                    Self::start_inside(start, referenced),
                    Ok(failed),
                ),
                _ => false,
            },
            request => self.answers(source, target, start.table, request, Ok(response)),
        }
    }

    /// Whether the response at the place `i` of `responses` is what came of
    /// the request that the migration made after the responses before it.
    pub open spec fn answered_at(
        &self,
        source: Seq<char>,
        target: Seq<char>,
        start: MigrationView,
        responses: Seq<Response>,
        i: int,
        inside: spec_fn(MigrationView, Result<Vec<String>, String>) -> bool,
    ) -> bool {
        self.answered_in(
            source,
            target,
            start,
            start.after(response_views(responses.take(i))),
            responses[i],
            inside,
        )
    }

    /// Whether `responses` are a run of the migration that starts in
    /// `start`: each is what came of the request made after those before
    /// it.
    pub open spec fn is_run(
        &self,
        source: Seq<char>,
        target: Seq<char>,
        start: MigrationView,
        responses: Seq<Response>,
        inside: spec_fn(MigrationView, Result<Vec<String>, String>) -> bool,
    ) -> bool {
        forall|i: int|
            0 <= i < responses.len() ==> #[trigger] self.answered_at(
                source,
                target,
                start,
                responses,
                i,
                inside,
            )
    }

    /// Whether `outcome` is the outcome of the run `responses` of the
    /// migration that starts in `start`. A run that has come to its end
    /// gives the statements that failed for good. A run that was given up
    /// gives the reason. A run that a repository cut short gives the
    /// repository's failure on the request that the migration made last.
    /// A run that asked last for a table to be migrated first gives the
    /// failure that `inside` takes for an outcome of that table's
    /// migration inside this one.
    pub open spec fn ends_with(
        &self,
        source: Seq<char>,
        target: Seq<char>,
        start: MigrationView,
        responses: Seq<Response>,
        outcome: Result<Vec<String>, String>,
        inside: spec_fn(MigrationView, Result<Vec<String>, String>) -> bool,
    ) -> bool {
        let end = start.after(response_views(responses));
        match outcome {
            Ok(failed) => end.phase == Phase::Done && views(failed@) == end.failed,
            Err(e) => match end.request() {
                RequestView::Abort(reason) => e@ == reason,
                RequestView::Finished => false,
                RequestView::MigrateFirst(referenced) => inside(
                    Self::start_inside(start, referenced),
                    Err(e),
                ),
                request => self.answers(source, target, start.table, request, Err(e)),
            },
        }
    }

    /// Whether `outcome` is the outcome of some run of the migration that
    /// starts in `start`, where `inside` says what the outcomes of the
    /// migrations inside it are.
    pub open spec fn is_outcome_given(
        &self,
        source: Seq<char>,
        target: Seq<char>,
        start: MigrationView,
        outcome: Result<Vec<String>, String>,
        inside: spec_fn(MigrationView, Result<Vec<String>, String>) -> bool,
    ) -> bool {
        exists|responses: Seq<Response>|
            self.is_run(source, target, start, responses, inside) && #[trigger] self.ends_with(
                source,
                target,
                start,
                responses,
                outcome,
                inside,
            )
    }

    /// The outcomes of the migrations that are run inside a migration with
    /// `depth` levels of depth left: none where no depth is left, for no
    /// migration is started then; else the outcomes of the runs of the
    /// inner migration, with one level less for what is run inside it.
    pub open spec fn outcomes_inside(&self, source: Seq<char>, target: Seq<char>, depth: nat) -> spec_fn(
        MigrationView,
        Result<Vec<String>, String>,
    ) -> bool
        decreases depth,
    {
        if depth == 0 {
            |start: MigrationView, outcome: Result<Vec<String>, String>| false
        } else {
            let deeper = self.outcomes_inside(source, target, (depth - 1) as nat);
            |start: MigrationView, outcome: Result<Vec<String>, String>|
                self.is_outcome_given(source, target, start, outcome, deeper)
        }
    }

    /// Whether `outcome` is the outcome of some run of the migration that
    /// starts in `start`: of a run in which every response is what the
    /// repositories gave for the request made, and in which a table that
    /// was to be migrated first was migrated by such a run in its turn.
    pub open spec fn is_outcome(
        &self,
        source: Seq<char>,
        target: Seq<char>,
        start: MigrationView,
        outcome: Result<Vec<String>, String>,
    ) -> bool {
        self.is_outcome_given(
            source,
            target,
            start,
            outcome,
            self.outcomes_inside(source, target, start.depth_left),
        )
    }

    /// A run followed by what came of the request made after it is a run,
    /// and leads to the state that follows on that response.
    proof fn lemma_run_grows(
        &self,
        source: Seq<char>,
        target: Seq<char>,
        start: MigrationView,
        run: Seq<Response>,
        response: Response,
        inside: spec_fn(MigrationView, Result<Vec<String>, String>) -> bool,
    )
        requires
            self.is_run(source, target, start, run, inside),
            self.answered_in(
                source,
                target,
                start,
                start.after(response_views(run)),
                response,
                inside,
            ),
        ensures
            self.is_run(source, target, start, run.push(response), inside),
            start.after(response_views(run.push(response))) == start.after(
                response_views(run),
            ).step(response@),
    {
        let longer = run.push(response);
        assert(response_views(longer) =~= response_views(run).push(response@));
        assert(response_views(longer).drop_last() =~= response_views(run));
        assert forall|i: int| 0 <= i < longer.len() implies #[trigger] self.answered_at(
            source,
            target,
            start,
            longer,
            i,
            inside,
        ) by {
            if i < run.len() {
                assert(longer.take(i) =~= run.take(i));
                assert(self.answered_at(source, target, start, run, i, inside));
            } else {
                assert(longer.take(i) =~= run);
            }
        }
    }

    /// Does what a migration asks for, through the repositories, and hands
    /// back what came of it. A statement that the target refuses is a
    /// response; every other failure of a repository is an error.
    pub fn perform(
        &self,
        source_database: &str,
        target_database: &str,
        table_name: &str,
        request: &Request,
    ) -> (outcome: Result<Response, String>)
        requires
            !(request is MigrateFirst),
            !(request is Finished),
            !(request is Abort),
        ensures
            self.answers(source_database@, target_database@, table_name@, request@, outcome),
    {
        match request {
            Request::SourceRows => match self.table_repository.get_rows(source_database, table_name) {
                Ok(rows) => Ok(Response::Rows(rows)),
                Err(e) => Err(e),
            },
            Request::TargetRows => match self.table_repository.get_rows(target_database, table_name) {
                Ok(rows) => Ok(Response::Rows(rows)),
                Err(e) => Err(e),
            },
            Request::TargetExists => {
                let record = build_base_simple_table(
                    table_name.to_owned(),
                    target_database.to_owned(),
                );
                match self.table_repository.table_exists(&record) {
                    Ok(found) => Ok(Response::Exists(found)),
                    Err(e) => Err(e),
                }
            },
            Request::SourceColumns => match self.table_repository.get_columns(
                source_database,
                table_name,
            ) {
                Ok(columns) => Ok(Response::Columns(columns)),
                Err(e) => Err(e),
            },
            Request::TargetColumns => match self.table_repository.get_columns(
                target_database,
                table_name,
            ) {
                Ok(columns) => Ok(Response::Columns(columns)),
                Err(e) => Err(e),
            },
            Request::Execute(query) => {
                let executed = self.table_repository.execute_query(target_database, query.as_str());
                match executed {
                    Ok(_done) => {
                        assert(executed == Ok::<(), String>(()));
                        Ok(Response::Executed)
                    },
                    Err(e) => Ok(Response::Rejected(e)),
                }
            },
            Request::MarkExported => {
                let marked = self.knowledge_repository.update_export_status(table_name, true);
                match marked {
                    Ok(_done) => {
                        assert(marked == Ok::<(), String>(()));
                        Ok(Response::Marked)
                    },
                    Err(e) => Err(e),
                }
            },
            _ => Err(String::new()),
        }
    }

    /// Migrates `table_name` inside the migrations of `ancestors`.
    fn migrate(
        &self,
        source_database: &str,
        target_database: &str,
        table_name: &str,
        ancestors: Vec<String>,
        depth_left: usize,
    ) -> (outcome: Result<Vec<String>, String>)
        ensures
            self.is_outcome(
                source_database@,
                target_database@,
                MigrationView::start(table_name@, views(ancestors@), depth_left as nat),
                outcome,
            ),
        decreases depth_left,
    {
        let ghost waiting = views(ancestors@);
        let ghost start = MigrationView::start(table_name@, waiting, depth_left as nat);
        let ghost inside = self.outcomes_inside(
            source_database@,
            target_database@,
            depth_left as nat,
        );
        let ghost mut run: Seq<Response> = Seq::empty();
        let mut migration = Migration::new(table_name.to_owned(), ancestors, depth_left);
        assert(response_views(run) =~= Seq::<crate::engine::ResponseView>::empty());
        loop
            invariant
                migration@.depth_left == depth_left,
                migration@.table == table_name@,
                migration@.ancestors == waiting,
                waiting == views(ancestors@),
                start == MigrationView::start(table_name@, waiting, depth_left as nat),
                migration@ == start.after(response_views(run)),
                inside == self.outcomes_inside(
                    source_database@,
                    target_database@,
                    depth_left as nat,
                ),
                self.is_run(source_database@, target_database@, start, run, inside),
            decreases
                    migration@.stage(),
                    migration@.statements_left(),
                    migration@.attempts_left(),
        {
            let request = migration.request();
            let response = match request {
                Request::Finished => {
                    let failed = migration.failed_queries();
                    assert(self.ends_with(
                        source_database@,
                        target_database@,
                        start,
                        run,
                        Ok(failed),
                        inside,
                    ));
                    return Ok(failed);
                },
                Request::Abort(error) => {
                    assert(self.ends_with(
                        source_database@,
                        target_database@,
                        start,
                        run,
                        Err(error),
                        inside,
                    ));
                    return Err(error);
                },
                Request::MigrateFirst(referenced) => {
                    let lineage = migration.lineage();
                    match self.migrate(
                        source_database,
                        target_database,
                        referenced.as_str(),
                        lineage,
                        depth_left - 1,
                    ) {
                        Ok(failed) => Response::Migrated(failed),
                        Err(e) => {
                            assert(self.ends_with(
                                source_database@,
                                target_database@,
                                start,
                                run,
                                Err(e),
                                inside,
                            ));
                            return Err(e);
                        },
                    }
                },
                other => match self.perform(source_database, target_database, table_name, &other) {
                    Ok(response) => response,
                    Err(e) => {
                        assert(self.ends_with(
                            source_database@,
                            target_database@,
                            start,
                            run,
                            Err(e),
                            inside,
                        ));
                        return Err(e);
                    },
                },
            };
            proof {
                self.lemma_run_grows(
                    source_database@,
                    target_database@,
                    start,
                    run,
                    response,
                    inside,
                );
                run = run.push(response);
            }
            migration = migration.step(response);
        }
    }

    /// Moves the data of `table_name` from the source to the target: runs a
    /// [`Migration`] of the table to its end, doing through the
    /// repositories what it asks for, and migrating first each table that
    /// it asks to be migrated first. Returns the statements that failed for
    /// good; they are no error. An error is a failure of a repository other
    /// than a refused statement, a refused statement whose text names no
    /// table, or a row that cannot be written as a statement.
    ///
    /// The outcome is that of a run of the migration in which every
    /// response is what the repositories gave for the request made, so
    /// that what holds of every run of a migration holds of this one.
    pub fn move_table_data(
        &self,
        source_database: &str,
        target_database: &str,
        table_name: &str,
    ) -> (outcome: Result<Vec<String>, String>)
        ensures
            self.is_outcome(
                source_database@,
                target_database@,
                MigrationView::start(table_name@, Seq::empty(), MAX_DEPENDENCY_DEPTH as nat),
                outcome,
            ),
    {
        let ancestors: Vec<String> = Vec::new();
        assert(views(ancestors@) =~= Seq::<Seq<char>>::empty());
        self.migrate(
            source_database,
            target_database,
            table_name,
            ancestors,
            MAX_DEPENDENCY_DEPTH,
        )
    }

    /// Builds the `INSERT` that carries `row` into `table_name` under
    /// `columns`; the reason where the row cannot be written.
    pub fn build_insert_query(&self, table_name: &str, columns: &Vec<TwoColumn>, row: &Row) -> (query:
        Result<String, String>)
        ensures
            query_matches(query, insert_query(table_name@, column_views(columns@), row@)),
    {
        match build_insert_query_2(table_name, columns, row) {
            Ok(query) => Ok(query),
            Err(e) => Err(codec_error_message(e)),
        }
    }

    /// Reads the referenced table out of the text of a refused statement.
    pub fn extract_referenced_table_from_error(&self, error: &str) -> (table: Option<String>)
        ensures
            crate::text::optional_text(table) == referenced_table(error@),
    {
        crate::dependency::extract_referenced_table_from_error(error)
    }
}

} // verus!
