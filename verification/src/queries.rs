//! The texts of the queries that the engine has run against the databases
//! and against the knowledge store.

use crate::domain::row::Row;
use crate::domain::two_column::TwoColumn;
use vstd::prelude::*;
use vstd::string::*;

verus! {

/// The query for the tables of a PostgreSQL database that refer to
/// themselves, each with the constraint and the referring column.
pub const SELF_REFERENCES_QUERY: &'static str = "
        SELECT
            conname AS constraint_name,
            conrelid::regclass::varchar AS table_name,
            a.attname AS column_name
        FROM
            pg_constraint AS c
        JOIN
            pg_attribute AS a
        ON
            a.attnum = ANY(c.conkey) AND a.attrelid = c.conrelid
        WHERE
            c.confrelid = c.conrelid
            AND c.contype = 'f'
        AND c.conrelid::regclass = c.confrelid::regclass
    ";

/// The statement that stores the row count of one record of the knowledge
/// store: the record of the table that its second parameter names, in the
/// database that its third parameter names.
pub const UPDATE_ROW_COUNT_QUERY: &'static str = "
        UPDATE tables
        SET row_count = ?1
        WHERE name = ?2 AND database = ?3
    ";

/// What is selected of each record of the knowledge store.
pub const SELECT_PART: &'static str = "SELECT
            id,
            name,
            table_type,
            export_complexity_type,
            database,
            export_order,
            is_self_referencing,
            self_referencing_column,
            row_count,
            is_exported
        FROM tables ";

/// The code under which PostgreSQL reports that a relation does not exist.
pub const UNDEFINED_TABLE: &'static str = "42P01";

/// SQL dialect: PostgreSQL. The query for all self-referencing tables.
pub fn query_get_self_references_tables() -> (query: &'static str)
    ensures
        query@ == SELF_REFERENCES_QUERY@,
{
    SELF_REFERENCES_QUERY
}

/// SQL dialect: PostgreSQL. The query for the self-references of the one
/// table that is given as its first parameter.
pub fn query_get_self_references_by_table() -> (query: String)
    ensures
        query@ == SELF_REFERENCES_QUERY@ + " AND conrelid::regclass::varchar = $1"@,
{
    let mut query = String::new();
    query.append(SELF_REFERENCES_QUERY);
    query.append(" AND conrelid::regclass::varchar = $1");
    assert(query@ =~= SELF_REFERENCES_QUERY@ + " AND conrelid::regclass::varchar = $1"@);
    query
}

/// SQL dialect: SQLite. The statement that stores the row count of the
/// record of one table of one database.
pub fn query_update_row_count() -> (query: &'static str)
    ensures
        query@ == UPDATE_ROW_COUNT_QUERY@,
{
    UPDATE_ROW_COUNT_QUERY
}

/// `before`, then `name`, then `after`.
pub open spec fn around(before: Seq<char>, name: Seq<char>, after: Seq<char>) -> Seq<char> {
    before + name + after
}

fn put_around(before: &str, name: &str, after: &str) -> (text: String)
    ensures
        text@ == around(before@, name@, after@),
{
    let mut text = String::new();
    text.append(before);
    text.append(name);
    text.append(after);
    assert(text@ =~= around(before@, name@, after@));
    text
}

/// The query that reads every row of a table.
pub fn query_select_all(table_name: &str) -> (query: String)
    ensures
        query@ == around("SELECT * FROM "@, table_name@, ""@),
{
    put_around("SELECT * FROM ", table_name, "")
}

/// The query that counts the rows of a table.
pub fn query_count_rows(table_name: &str) -> (query: String)
    ensures
        query@ == around("SELECT COUNT(*) FROM "@, table_name@, ""@),
{
    put_around("SELECT COUNT(*) FROM ", table_name, "")
}

/// The query that tells whether the public schema has a table.
pub fn query_check_table_existed(table_name: &str) -> (query: String)
    ensures
        query@ == around(
            "
        SELECT EXISTS (
          SELECT 1
          FROM pg_tables
          WHERE schemaname = 'public'
            AND tablename = '"@,
            table_name@,
            "'
        );"@,
        ),
{
    put_around(
        "
        SELECT EXISTS (
          SELECT 1
          FROM pg_tables
          WHERE schemaname = 'public'
            AND tablename = '",
        table_name,
        "'
        );",
    )
}

/// The query that reads the columns of a table, each with its name and its
/// declared type.
pub fn query_get_columns(table_name: &str) -> (query: String)
    ensures
        query@ == around(
            "
    SELECT
        column_name,
        data_type,
        character_maximum_length,
        numeric_precision,
        numeric_scale,
        is_nullable
    FROM
        information_schema.columns
    WHERE
        table_name = '"@,
            table_name@,
            "';"@,
        ),
{
    put_around(
        "
    SELECT
        column_name,
        data_type,
        character_maximum_length,
        numeric_precision,
        numeric_scale,
        is_nullable
    FROM
        information_schema.columns
    WHERE
        table_name = '",
        table_name,
        "';",
    )
}

/// The query that reads the table to which a foreign-key constraint
/// refers.
pub fn query_get_constraint_table(constraint: &str) -> (query: String)
    ensures
        query@ == around(
            "
    SELECT
        conname AS constraint_name,
        conrelid::regclass AS table_name,
        confrelid::regclass::text AS referenced_table_name
    FROM
        pg_constraint
    WHERE
        contype = 'f'
        AND conname = '"@,
            constraint@,
            "';"@,
        ),
{
    put_around(
        "
    SELECT
        conname AS constraint_name,
        conrelid::regclass AS table_name,
        confrelid::regclass::text AS referenced_table_name
    FROM
        pg_constraint
    WHERE
        contype = 'f'
        AND conname = '",
        constraint,
        "';",
    )
}

/// The query that reads the records of the knowledge store that meet a
/// condition.
pub fn query_select_tables(condition: &str) -> (query: String)
    ensures
        query@ == around(SELECT_PART@, " "@, condition@),
{
    put_around(SELECT_PART, " ", condition)
}

/// The address of a database of a PostgreSQL server.
pub open spec fn database_address(
    username: Seq<char>,
    password: Seq<char>,
    host: Seq<char>,
    database: Seq<char>,
) -> Seq<char> {
    "postgresql://"@ + username + ":"@ + password + "@"@ + host + "/"@ + database
}

/// Writes the address under which a database is connected to.
pub fn database_url(username: &str, password: &str, host: &str, database_name: &str) -> (url:
    String)
    ensures
        url@ == database_address(username@, password@, host@, database_name@),
{
    let mut url = String::new();
    url.append("postgresql://");
    url.append(username);
    url.append(":");
    url.append(password);
    url.append("@");
    url.append(host);
    url.append("/");
    url.append(database_name);
    assert(url@ =~= database_address(username@, password@, host@, database_name@));
    url
}

/// Whether a failure that carries the given code says that the table does
/// not exist.
pub open spec fn says_table_is_absent(code: Option<&str>) -> bool {
    match code {
        Some(c) => c@ == UNDEFINED_TABLE@,
        None => false,
    }
}

/// Decides what the rows of a table are after the query for them has
/// failed: none, where the failure says that the table does not exist, so
/// that a table that was not created yet counts as empty; with any other
/// failure there are no rows to speak of, and the failure stands.
pub fn rows_after_failure(code: Option<&str>, failure: String) -> (rows: Result<Vec<Row>, String>)
    ensures
        match rows {
            Ok(none) => none@.len() == 0 && says_table_is_absent(code),
            Err(e) => e == failure && !says_table_is_absent(code),
        },
{
    match code {
        Some(c) => {
            if crate::text::str_eq(c, UNDEFINED_TABLE) {
                Ok(Vec::new())
            } else {
                Err(failure)
            }
        },
        None => Err(failure),
    }
}

/// Decides what the columns of a table are after the query for them has
/// failed: none, whatever the failure, so that a table whose columns cannot
/// be read counts as a table without columns.
pub fn columns_after_failure(failure: &str) -> (columns: Vec<TwoColumn>)
    ensures
        columns@.len() == 0,
{
    Vec::new()
}

/// Whether a table is taken to exist in a database, given what the query
/// for its existence gave: it exists where the query went through and said
/// so; a query that failed counts as a table that is not there.
pub fn check_if_table_existed_in_db(answer: &Result<bool, String>) -> (exists: bool)
    ensures
        exists == (*answer == Ok::<bool, String>(true)),
{
    match answer {
        Ok(found) => *found,
        Err(_) => false,
    }
}

} // verus!
