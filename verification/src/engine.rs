//! The migration of one table, as a machine that is driven from outside.
//!
//! A [`Migration`] never touches a database. It says what it needs next (a
//! [`Request`]), is told what came of it (a [`Response`]), and so decides,
//! step by step, what is read, which statements are issued, when the table
//! is marked as exported and when a referenced table is migrated first.

use crate::codec::CodecError;
use crate::dependency::{extract_referenced_table_from_error, referenced_table};
use crate::domain::row::{row_views, CellView, Row};
use crate::domain::two_column::{column_views, TwoColumn, TwoColumnView};
use crate::statements::{insert_queries, prepare_insert_queries};
use crate::text::{contains_name, duplicate_strings, str_eq, views};
use vstd::prelude::*;
use vstd::string::*;

verus! {

/// What a migration waits for.
#[derive(Debug, Clone, Copy, PartialEq, Eq, Structural)]
pub enum Phase {
    /// The rows of the table in the source.
    SourceRows,
    /// The rows of the table in the target.
    TargetRows,
    /// Whether the target has the table at all.
    TargetExists,
    /// The columns of the table in the source.
    SourceColumns,
    /// The columns of the table in the target.
    TargetColumns,
    /// The outcome of the statement at hand, issued for the first time.
    Statement,
    /// The migration of the table that the statement at hand refers to.
    Dependency,
    /// The outcome of the statement at hand, issued once more.
    Retry,
    /// The export mark that follows a statement that went through.
    MarkStatement,
    /// The export mark of a table that needs no statement.
    MarkAndFinish,
    /// Nothing: the migration is over.
    Done,
    /// Nothing: the migration was given up.
    Failed,
}

/// What a migration asks its driver to do next.
#[derive(Debug, Clone, PartialEq, Eq)]
pub enum Request {
    /// Read the rows of the table from the source.
    SourceRows,
    /// Read the rows of the table from the target.
    TargetRows,
    /// Find out whether the target has the table.
    TargetExists,
    /// Read the columns of the table from the source.
    SourceColumns,
    /// Read the columns of the table from the target.
    TargetColumns,
    /// Execute this statement against the target.
    Execute(String),
    /// Mark the table as exported.
    MarkExported,
    /// Migrate this table, then come back.
    MigrateFirst(String),
    /// Stop: the migration is over.
    Finished,
    /// Stop: the migration was given up, for this reason.
    Abort(String),
}

/// What a [`Request`] holds.
pub enum RequestView {
    SourceRows,
    TargetRows,
    TargetExists,
    SourceColumns,
    TargetColumns,
    Execute(Seq<char>),
    MarkExported,
    MigrateFirst(Seq<char>),
    Finished,
    Abort(Seq<char>),
}

impl View for Request {
    type V = RequestView;

    open spec fn view(&self) -> RequestView {
        match *self {
            Request::SourceRows => RequestView::SourceRows,
            Request::TargetRows => RequestView::TargetRows,
            Request::TargetExists => RequestView::TargetExists,
            Request::SourceColumns => RequestView::SourceColumns,
            Request::TargetColumns => RequestView::TargetColumns,
            Request::Execute(q) => RequestView::Execute(q@),
            Request::MarkExported => RequestView::MarkExported,
            Request::MigrateFirst(t) => RequestView::MigrateFirst(t@),
            Request::Finished => RequestView::Finished,
            Request::Abort(e) => RequestView::Abort(e@),
        }
    }
}

/// What came of a [`Request`].
#[derive(Debug, Clone, PartialEq, Eq)]
pub enum Response {
    /// The rows that were read.
    Rows(Vec<Row>),
    /// Whether the target has the table.
    Exists(bool),
    /// The columns that were read.
    Columns(Vec<TwoColumn>),
    /// The statement went through.
    Executed,
    /// The statement was refused, with this text.
    Rejected(String),
    /// The table is marked as exported.
    Marked,
    /// The referenced table was migrated; these statements of it failed.
    Migrated(Vec<String>),
}

/// What a [`Response`] holds.
pub enum ResponseView {
    Rows(Seq<Seq<CellView>>),
    Exists(bool),
    Columns(Seq<TwoColumnView>),
    Executed,
    Rejected(Seq<char>),
    Marked,
    Migrated(Seq<Seq<char>>),
}

impl View for Response {
    type V = ResponseView;

    open spec fn view(&self) -> ResponseView {
        match *self {
            Response::Rows(rows) => ResponseView::Rows(row_views(rows@)),
            Response::Exists(b) => ResponseView::Exists(b),
            Response::Columns(columns) => ResponseView::Columns(column_views(columns@)),
            Response::Executed => ResponseView::Executed,
            Response::Rejected(e) => ResponseView::Rejected(e@),
            Response::Marked => ResponseView::Marked,
            Response::Migrated(failed) => ResponseView::Migrated(views(failed@)),
        }
    }
}

/// The views of a list of responses.
pub open spec fn response_views(responses: Seq<Response>) -> Seq<ResponseView> {
    responses.map_values(|r: Response| r@)
}

/// The reason that is given when a row cannot be written as a statement.
pub open spec fn codec_message(error: CodecError) -> Seq<char> {
    match error {
        CodecError::MissingColumn => "a row lacks a column that the statement names"@,
        CodecError::OutOfRange => "a row holds a value that cannot be written out"@,
        CodecError::MissingId => "a row has no integer id"@,
    }
}

/// The reason that is given when a response does not answer the request.
pub open spec fn unexpected_response() -> Seq<char> {
    "the response does not answer the request"@
}

/// Whether the target already holds what the source holds, as far as the
/// numbers of rows tell: both are empty, or both hold the same number.
pub open spec fn already_synced(source_rows: nat, target_rows: nat) -> bool {
    source_rows == target_rows
}

/// The state of a migration.
pub struct MigrationView {
    /// The table that is migrated.
    pub table: Seq<char>,
    /// The tables whose own migration waits for this one, outermost first.
    pub ancestors: Seq<Seq<char>>,
    /// How many more tables may be migrated one inside the other.
    pub depth_left: nat,
    pub phase: Phase,
    /// The rows of the source, once read.
    pub source_rows: Seq<Seq<CellView>>,
    /// The columns of the source, once read.
    pub source_columns: Seq<TwoColumnView>,
    /// The statements, once generated.
    pub statements: Seq<Seq<char>>,
    /// The index of the statement at hand.
    pub next: nat,
    /// The statements that failed for good, in the order of their failure.
    pub failed: Seq<Seq<char>>,
    /// The table that the statement at hand refers to.
    pub dependency: Seq<char>,
    /// Why the migration was given up.
    pub error: Seq<char>,
}

impl MigrationView {
    /// The state in which the migration of `table` starts.
    pub open spec fn start(table: Seq<char>, ancestors: Seq<Seq<char>>, depth_left: nat) -> Self {
        MigrationView {
            table,
            ancestors,
            depth_left,
            phase: Phase::SourceRows,
            source_rows: Seq::empty(),
            source_columns: Seq::empty(),
            statements: Seq::empty(),
            next: 0,
            failed: Seq::empty(),
            dependency: Seq::empty(),
            error: Seq::empty(),
        }
    }

    /// Whether a statement is at hand.
    pub open spec fn at_statement(self) -> bool {
        self.phase == Phase::Statement || self.phase == Phase::Dependency || self.phase
            == Phase::Retry || self.phase == Phase::MarkStatement
    }

    /// What holds of every state that a migration reaches.
    pub open spec fn well_formed(self) -> bool {
        &&& self.next <= self.statements.len()
        &&& self.at_statement() ==> self.next < self.statements.len()
        &&& self.phase == Phase::Dependency ==> self.depth_left > 0
    }

    /// Whether the migration has come to its end, one way or the other.
    pub open spec fn finished(self) -> bool {
        self.phase == Phase::Done || self.phase == Phase::Failed
    }

    /// What the migration asks for in this state.
    pub open spec fn request(self) -> RequestView {
        match self.phase {
            Phase::SourceRows => RequestView::SourceRows,
            Phase::TargetRows => RequestView::TargetRows,
            Phase::TargetExists => RequestView::TargetExists,
            Phase::SourceColumns => RequestView::SourceColumns,
            Phase::TargetColumns => RequestView::TargetColumns,
            Phase::Statement => RequestView::Execute(self.statements[self.next as int]),
            Phase::Dependency => RequestView::MigrateFirst(self.dependency),
            Phase::Retry => RequestView::Execute(self.statements[self.next as int]),
            Phase::MarkStatement => RequestView::MarkExported,
            Phase::MarkAndFinish => RequestView::MarkExported,
            Phase::Done => RequestView::Finished,
            Phase::Failed => RequestView::Abort(self.error),
        }
    }

    /// The migration given up for the reason `error`.
    pub open spec fn fail(self, error: Seq<char>) -> Self {
        MigrationView { phase: Phase::Failed, error, ..self }
    }

    /// The migration turned to the statement after the one at hand, or over
    /// if that was the last.
    pub open spec fn advance(self) -> Self {
        MigrationView {
            next: self.next + 1,
            phase: if self.next + 1 < self.statements.len() {
                Phase::Statement
            } else {
                Phase::Done
            },
            ..self
        }
    }

    /// The statement at hand put down as failed, and the migration turned to
    /// the next.
    pub open spec fn give_up_statement(self) -> Self {
        (MigrationView {
            failed: self.failed.push(self.statements[self.next as int]),
            ..self
        }).advance()
    }

    /// Whether `table` may be migrated inside this migration: not where the
    /// depth is used up, and not where `table` is this migration's own table
    /// or one that waits for it, which would never end.
    pub open spec fn may_migrate_first(self, table: Seq<char>) -> bool {
        &&& self.depth_left > 0
        &&& table != self.table
        &&& !self.ancestors.contains(table)
    }

    /// The state after a statement was refused with the text `error`. A text
    /// that names no table ends the migration. A table that may be migrated
    /// first is migrated first; with any other the statement has failed.
    pub open spec fn rejected(self, error: Seq<char>) -> Self {
        match referenced_table(error) {
            None => self.fail(error),
            Some(table) => if self.may_migrate_first(table) {
                MigrationView { phase: Phase::Dependency, dependency: table, ..self }
            } else {
                self.give_up_statement()
            },
        }
    }

    /// The state after the columns of the target have come: the statements
    /// are generated, and the first of them is at hand.
    pub open spec fn planned(self, columns_target: Seq<TwoColumnView>) -> Self {
        match insert_queries(self.table, self.source_columns, columns_target, self.source_rows) {
            Err(e) => self.fail(codec_message(e)),
            Ok(statements) => MigrationView {
                statements,
                next: 0,
                phase: if statements.len() > 0 {
                    Phase::Statement
                } else {
                    Phase::Done
                },
                ..self
            },
        }
    }

    /// The state that follows this one on `response`.
    pub open spec fn step(self, response: ResponseView) -> Self {
        match (self.phase, response) {
            (Phase::Done, _) => self,
            (Phase::Failed, _) => self,
            (Phase::SourceRows, ResponseView::Rows(rows)) => MigrationView {
                source_rows: rows,
                phase: Phase::TargetRows,
                ..self
            },
            (Phase::TargetRows, ResponseView::Rows(rows)) => MigrationView {
                phase: if already_synced(self.source_rows.len(), rows.len()) {
                    Phase::MarkAndFinish
                } else {
                    Phase::TargetExists
                },
                ..self
            },
            (Phase::TargetExists, ResponseView::Exists(exists)) => MigrationView {
                phase: if exists {
                    Phase::SourceColumns
                } else {
                    Phase::MarkAndFinish
                },
                ..self
            },
            (Phase::SourceColumns, ResponseView::Columns(columns)) => MigrationView {
                source_columns: columns,
                phase: Phase::TargetColumns,
                ..self
            },
            (Phase::TargetColumns, ResponseView::Columns(columns)) => self.planned(columns),
            (Phase::Statement, ResponseView::Executed) => MigrationView {
                phase: Phase::MarkStatement,
                ..self
            },
            (Phase::Statement, ResponseView::Rejected(error)) => self.rejected(error),
            (Phase::Dependency, ResponseView::Migrated(failed)) => MigrationView {
                failed: self.failed + failed,
                phase: Phase::Retry,
                ..self
            },
            (Phase::Retry, ResponseView::Executed) => MigrationView {
                phase: Phase::MarkStatement,
                ..self
            },
            (Phase::Retry, ResponseView::Rejected(_)) => self.give_up_statement(),
            (Phase::MarkStatement, ResponseView::Marked) => self.advance(),
            (Phase::MarkAndFinish, ResponseView::Marked) => MigrationView {
                phase: Phase::Done,
                ..self
            },
            _ => self.fail(unexpected_response()),
        }
    }

    /// The state that follows this one on `responses`, taken one after the
    /// other.
    pub open spec fn after(self, responses: Seq<ResponseView>) -> Self
        decreases responses.len(),
    {
        if responses.len() == 0 {
            self
        } else {
            self.after(responses.drop_last()).step(responses.last())
        }
    }

    /// How far the migration is from its end, coarsely: the phases before
    /// the statements count down to them.
    pub open spec fn stage(self) -> nat {
        match self.phase {
            Phase::SourceRows => 7,
            Phase::TargetRows => 6,
            Phase::TargetExists => 5,
            Phase::SourceColumns => 4,
            Phase::TargetColumns => 3,
            Phase::Statement => 2,
            Phase::Dependency => 2,
            Phase::Retry => 2,
            Phase::MarkStatement => 2,
            Phase::MarkAndFinish => 1,
            Phase::Done => 0,
            Phase::Failed => 0,
        }
    }

    /// How many statements are not dealt with yet.
    pub open spec fn statements_left(self) -> nat {
        if self.at_statement() {
            (self.statements.len() - self.next) as nat
        } else {
            0
        }
    }

    /// How far the statement at hand is from being dealt with.
    pub open spec fn attempts_left(self) -> nat {
        match self.phase {
            Phase::Statement => 3,
            Phase::Dependency => 2,
            Phase::Retry => 1,
            _ => 0,
        }
    }

    /// Whether this state is nearer to the end than `other`.
    pub open spec fn nearer_than(self, other: Self) -> bool {
        ||| self.stage() < other.stage()
        ||| (self.stage() == other.stage() && self.statements_left() < other.statements_left())
        ||| (self.stage() == other.stage() && self.statements_left() == other.statements_left()
            && self.attempts_left() < other.attempts_left())
    }
}

/// The migration of one table.
#[derive(Debug)]
pub struct Migration {
    table: String,
    ancestors: Vec<String>,
    depth_left: usize,
    phase: Phase,
    source_rows: Vec<Row>,
    source_columns: Vec<TwoColumn>,
    statements: Vec<String>,
    next: usize,
    failed: Vec<String>,
    dependency: String,
    error: String,
}

impl View for Migration {
    type V = MigrationView;

    closed spec fn view(&self) -> MigrationView {
        MigrationView {
            table: self.table@,
            ancestors: views(self.ancestors@),
            depth_left: self.depth_left as nat,
            phase: self.phase,
            source_rows: row_views(self.source_rows@),
            source_columns: column_views(self.source_columns@),
            statements: views(self.statements@),
            next: self.next as nat,
            failed: views(self.failed@),
            dependency: self.dependency@,
            error: self.error@,
        }
    }
}

/// Writes out the reason for which a row could not become a statement.
pub fn codec_error_message(error: CodecError) -> (message: String)
    ensures
        message@ == codec_message(error),
{
    match error {
        CodecError::MissingColumn => "a row lacks a column that the statement names".to_owned(),
        CodecError::OutOfRange => "a row holds a value that cannot be written out".to_owned(),
        CodecError::MissingId => "a row has no integer id".to_owned(),
    }
}

impl Migration {
    #[verifier::type_invariant]
    spec fn valid(self) -> bool {
        self@.well_formed()
    }

    /// Starts the migration of `table`. `ancestors` are the tables whose own
    /// migration waits for this one, and `depth_left` says how many more
    /// migrations may be started one inside the other.
    pub fn new(table: String, ancestors: Vec<String>, depth_left: usize) -> (migration: Migration)
        ensures
            migration@ == MigrationView::start(table@, views(ancestors@), depth_left as nat),
            migration@.well_formed(),
    {
        let migration = Migration {
            table,
            ancestors,
            depth_left,
            phase: Phase::SourceRows,
            source_rows: Vec::new(),
            source_columns: Vec::new(),
            statements: Vec::new(),
            next: 0,
            failed: Vec::new(),
            dependency: String::new(),
            error: String::new(),
        };
        assert(migration@ =~= MigrationView::start(table@, views(ancestors@), depth_left as nat)) by {
            assert(row_views(migration.source_rows@) =~= Seq::empty());
            assert(column_views(migration.source_columns@) =~= Seq::empty());
            assert(views(migration.statements@) =~= Seq::empty());
        }
        migration
    }

    /// What the migration waits for.
    pub fn phase(&self) -> (phase: Phase)
        ensures
            phase == self@.phase,
    {
        self.phase
    }

    /// Whether the migration has come to its end.
    pub fn is_finished(&self) -> (finished: bool)
        ensures
            finished == self@.finished(),
    {
        self.phase == Phase::Done || self.phase == Phase::Failed
    }

    /// What the migration asks its driver to do next.
    pub fn request(&self) -> (request: Request)
        ensures
            request@ == self@.request(),
            self@.well_formed(),
    {
        proof {
            use_type_invariant(self);
        }
        match self.phase {
            Phase::SourceRows => Request::SourceRows,
            Phase::TargetRows => Request::TargetRows,
            Phase::TargetExists => Request::TargetExists,
            Phase::SourceColumns => Request::SourceColumns,
            Phase::TargetColumns => Request::TargetColumns,
            Phase::Statement => Request::Execute(self.statements[self.next].clone()),
            Phase::Dependency => Request::MigrateFirst(self.dependency.clone()),
            Phase::Retry => Request::Execute(self.statements[self.next].clone()),
            Phase::MarkStatement => Request::MarkExported,
            Phase::MarkAndFinish => Request::MarkExported,
            Phase::Done => Request::Finished,
            Phase::Failed => Request::Abort(self.error.clone()),
        }
    }

    /// The statements that have failed for good so far.
    pub fn failed_queries(&self) -> (failed: Vec<String>)
        ensures
            views(failed@) == self@.failed,
    {
        duplicate_strings(&self.failed)
    }

    /// The tables that wait for a table that this migration migrates first:
    /// its own ancestors, and then its own table.
    pub fn lineage(&self) -> (lineage: Vec<String>)
        ensures
            views(lineage@) == self@.ancestors.push(self@.table),
    {
        let mut lineage = duplicate_strings(&self.ancestors);
        let ghost before = views(lineage@);
        lineage.push(self.table.clone());
        assert(views(lineage@) =~= before.push(self.table@));
        lineage
    }

    /// How many more migrations may be started one inside the other.
    pub fn depth_left(&self) -> (depth: usize)
        ensures
            depth == self@.depth_left,
    {
        self.depth_left
    }

    fn fail(self, error: String) -> (next: Migration)
        ensures
            next@ == self@.fail(error@),
    {
        proof {
            use_type_invariant(&self);
        }
        Migration { phase: Phase::Failed, error, ..self }
    }

    fn advance(self) -> (next: Migration)
        requires
            self@.at_statement(),
        ensures
            next@ == self@.advance(),
    {
        proof {
            use_type_invariant(&self);
        }
        let total: usize = self.statements.len();
        let following: usize = self.next + 1;
        let phase = if following < total {
            Phase::Statement
        } else {
            Phase::Done
        };
        Migration { next: following, phase, ..self }
    }

    fn give_up_statement(self) -> (next: Migration)
        requires
            self@.at_statement(),
        ensures
            next@ == self@.give_up_statement(),
    {
        proof {
            use_type_invariant(&self);
        }
        let mut failed = duplicate_strings(&self.failed);
        let ghost before = views(failed@);
        failed.push(self.statements[self.next].clone());
        assert(views(failed@) =~= before.push(self.statements@[self.next as int]@));
        let marked = Migration { failed, ..self };
        marked.advance()
    }

    fn rejected(self, error: String) -> (next: Migration)
        requires
            self@.phase == Phase::Statement,
        ensures
            next@ == self@.rejected(error@),
    {
        proof {
            use_type_invariant(&self);
        }
        match extract_referenced_table_from_error(error.as_str()) {
            None => self.fail(error),
            Some(table) => {
                let allowed = self.depth_left > 0 && !str_eq(table.as_str(), self.table.as_str())
                    && !contains_name(&self.ancestors, table.as_str());
                if allowed {
                    Migration { phase: Phase::Dependency, dependency: table, ..self }
                } else {
                    self.give_up_statement()
                }
            },
        }
    }

    fn planned(self, columns_target: Vec<TwoColumn>) -> (next: Migration)
        ensures
            next@ == self@.planned(column_views(columns_target@)),
    {
        proof {
            use_type_invariant(&self);
        }
        match prepare_insert_queries(
            self.table.as_str(),
            &self.source_columns,
            &columns_target,
            &self.source_rows,
        ) {
            Err(e) => self.fail(codec_error_message(e)),
            Ok(statements) => {
                let phase = if statements.len() > 0 {
                    Phase::Statement
                } else {
                    Phase::Done
                };
                Migration { statements, next: 0, phase, ..self }
            },
        }
    }

    /// Takes the response to the request that was made last, and moves on.
    /// Each step brings an unfinished migration nearer to its end.
    pub fn step(self, response: Response) -> (next: Migration)
        ensures
            next@ == self@.step(response@),
            next@.well_formed(),
            next@.table == self@.table,
            next@.ancestors == self@.ancestors,
            next@.depth_left == self@.depth_left,
            !self@.finished() ==> next@.nearer_than(self@),
    {
        proof {
            use_type_invariant(&self);
        }
        let next = match self.phase {
            Phase::Done => self,
            Phase::Failed => self,
            Phase::SourceRows => match response {
                Response::Rows(rows) => Migration {
                    source_rows: rows,
                    phase: Phase::TargetRows,
                    ..self
                },
                _ => self.fail("the response does not answer the request".to_owned()),
            },
            Phase::TargetRows => match response {
                Response::Rows(rows) => {
                    let phase = if self.source_rows.len() == rows.len() {
                        Phase::MarkAndFinish
                    } else {
                        Phase::TargetExists
                    };
                    Migration { phase, ..self }
                },
                _ => self.fail("the response does not answer the request".to_owned()),
            },
            Phase::TargetExists => match response {
                Response::Exists(exists) => {
                    let phase = if exists {
                        Phase::SourceColumns
                    } else {
                        Phase::MarkAndFinish
                    };
                    Migration { phase, ..self }
                },
                _ => self.fail("the response does not answer the request".to_owned()),
            },
            Phase::SourceColumns => match response {
                Response::Columns(columns) => Migration {
                    source_columns: columns,
                    phase: Phase::TargetColumns,
                    ..self
                },
                _ => self.fail("the response does not answer the request".to_owned()),
            },
            Phase::TargetColumns => match response {
                Response::Columns(columns) => self.planned(columns),
                _ => self.fail("the response does not answer the request".to_owned()),
            },
            Phase::Statement => match response {
                Response::Executed => Migration { phase: Phase::MarkStatement, ..self },
                Response::Rejected(error) => self.rejected(error),
                _ => self.fail("the response does not answer the request".to_owned()),
            },
            Phase::Dependency => match response {
                Response::Migrated(more) => {
                    let mut failed = duplicate_strings(&self.failed);
                    let mut more = more;
                    let ghost first = views(failed@);
                    let ghost second = views(more@);
                    failed.append(&mut more);
                    assert(views(failed@) =~= first + second);
                    Migration { failed, phase: Phase::Retry, ..self }
                },
                _ => self.fail("the response does not answer the request".to_owned()),
            },
            Phase::Retry => match response {
                Response::Executed => Migration { phase: Phase::MarkStatement, ..self },
                Response::Rejected(_) => self.give_up_statement(),
                _ => self.fail("the response does not answer the request".to_owned()),
            },
            Phase::MarkStatement => match response {
                Response::Marked => self.advance(),
                _ => self.fail("the response does not answer the request".to_owned()),
            },
            Phase::MarkAndFinish => match response {
                Response::Marked => Migration { phase: Phase::Done, ..self },
                _ => self.fail("the response does not answer the request".to_owned()),
            },
        };
        proof {
            use_type_invariant(&next);
        }
        next
    }
}

} // verus!
