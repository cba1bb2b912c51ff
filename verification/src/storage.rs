//! The store that persists timers in an embedded SQLite database.
//!
//! The database is reached through a handful of trusted calls into
//! `rusqlite`, of which nothing is assumed but what their sources show. What
//! the store makes of their results is decided by verified functions that
//! take a result as an argument: [`stored_version`], [`check_version`],
//! [`admit_version`], [`exists_outcome`], [`update_outcome`],
//! [`lookup_outcome`], [`count_outcome`] and [`rows_outcome`]. What it binds
//! to its statements is fixed by [`insert_params`], [`update_params`],
//! [`status_params`] and [`date_params`].

use crate::dates::{is_blank, parse_time, spec_parse_time};
use crate::row::{RowView, SQLTimerRow};
use std::path::PathBuf;
use vstd::prelude::*;

verus! {

/// The version of the persisted layout that this library reads and writes.
pub const SCHEMA_VERSION: i32 = 1;

const CREATE_PARAMS: &'static str =
    "CREATE TABLE IF NOT EXISTS db_params (param STRING, value_int INTEGER, value_str STRING, value_float FLOAT)";

const CREATE_TIMERS: &'static str =
    "CREATE TABLE IF NOT EXISTS timers (id INTEGER PRIMARY KEY AUTOINCREMENT, start INTEGER, task STRING, end INTEGER, idle INTEGER, status INTEGER)";

const SELECT_VERSION: &'static str = "SELECT value_int FROM db_params WHERE param == 'version'";

const INSERT_VERSION: &'static str =
    "INSERT INTO db_params (param, value_int) VALUES ('version', ?1)";

const COUNT_BY_ID: &'static str = "SELECT count(0) AS n FROM timers WHERE id = ?1";

const INSERT_TIMER: &'static str =
    "INSERT INTO timers (task, start, end, idle, status) VALUES (?1, ?2, ?3, ?4, ?5)";

const UPDATE_TIMER: &'static str =
    "UPDATE timers SET task=?1, start=?2, end=?3, idle=?4, status=?5 WHERE id=?6";

const SELECT_BY_ID: &'static str =
    "SELECT id, task, start, end, idle, status FROM timers WHERE id = ?1";

const COUNT_BY_STATUS: &'static str = "SELECT count() n FROM timers WHERE status = ?1";

const SELECT_BY_STATUS: &'static str =
    "SELECT id, task, start, end, idle, status FROM timers WHERE status = ?1 ORDER BY id DESC LIMIT ?2";

const SELECT_BY_DATE: &'static str =
    "SELECT id, task, start, end, idle, status FROM timers WHERE (?1 is NULL OR start >= ?1) AND (?2 is NULL OR start < ?2) ORDER BY start DESC LIMIT ?3";

/// The handle of an open SQLite database, `rusqlite::Connection`. Nothing
/// is known of what is inside it.
#[verifier::external_type_specification]
#[verifier::external_body]
pub struct ExConnection(rusqlite::Connection);

/// What a call into the database failed with, `rusqlite::Error`. Nothing is
/// known of what is inside it.
#[verifier::external_type_specification]
#[verifier::external_body]
pub struct ExError(rusqlite::Error);

/// A value made ready for a placeholder, `rusqlite::types::ToSqlOutput`.
/// Nothing is known of what is inside it.
#[verifier::external_type_specification]
#[verifier::external_body]
pub struct ExToSqlOutput<'a>(rusqlite::types::ToSqlOutput<'a>);

/// The path of a file, `std::path::PathBuf`. Nothing is known of what is
/// inside it.
#[verifier::external_type_specification]
#[verifier::external_body]
pub struct ExPathBuf(PathBuf);

/// Why the store refused an operation.
#[derive(Debug, PartialEq)]
pub enum StorageError {
    /// The database failed; the cause is inside.
    DatabaseError(rusqlite::Error),
    /// The database was written by another version of the layout.
    SchemaVersionError,
    /// No timer has the given id.
    TimerDoesNotExists,
    /// The store has no connection to a database.
    ConnectionNotFound,
    /// A text has none of the shapes of a date.
    WrongDatetimeFormat,
}

impl From<rusqlite::Error> for StorageError {
    fn from(error: rusqlite::Error) -> (wrapped: StorageError) {
        StorageError::DatabaseError(error)
    }
}

impl vstd::std_specs::convert::FromSpecImpl<rusqlite::Error> for StorageError {
    open spec fn obeys_from_spec() -> bool {
        true
    }

    open spec fn from_spec(error: rusqlite::Error) -> StorageError {
        StorageError::DatabaseError(error)
    }
}

/// A value that is bound to a placeholder of an SQL statement.
#[derive(Debug)]
pub enum SqlParam {
    /// SQL `NULL`.
    Null,
    /// A signed integer.
    Integer(i64),
    /// An unsigned integer. SQLite holds signed 64-bit integers: one above
    /// their range cannot be bound.
    Unsigned(u64),
    /// A text.
    Text(String),
}

/// The mathematical content of a [`SqlParam`].
pub enum SqlParamView {
    Null,
    Integer(i64),
    Unsigned(u64),
    Text(Seq<char>),
}

impl View for SqlParam {
    type V = SqlParamView;

    open spec fn view(&self) -> SqlParamView {
        match self {
            SqlParam::Null => SqlParamView::Null,
            SqlParam::Integer(value) => SqlParamView::Integer(*value),
            SqlParam::Unsigned(value) => SqlParamView::Unsigned(*value),
            SqlParam::Text(value) => SqlParamView::Text(value@),
        }
    }
}

/// The contents of a list of parameters.
pub open spec fn param_views(params: Seq<SqlParam>) -> Seq<SqlParamView> {
    params.map_values(|param: SqlParam| param@)
}

/// Whether a parameter can be bound: every one can, but an unsigned integer
/// above the range of the signed ones.
pub open spec fn can_bind(param: SqlParamView) -> bool {
    match param {
        SqlParamView::Unsigned(value) => value <= i64::MAX,
        _ => true,
    }
}

/// Whether every parameter of a list can be bound.
pub open spec fn can_bind_all(params: Seq<SqlParamView>) -> bool {
    forall|i: int| 0 <= i < params.len() ==> can_bind(#[trigger] params[i])
}

/// The parameter that stands for an optional point in time: `NULL` where
/// there is none.
pub open spec fn spec_time_param(time: Option<u64>) -> SqlParamView {
    match time {
        Some(code) => SqlParamView::Unsigned(code),
        None => SqlParamView::Null,
    }
}

/// The parameters of the statement that inserts a row: task, start, end,
/// idle and status. The id is left to the database.
pub open spec fn spec_insert_params(row: RowView) -> Seq<SqlParamView> {
    seq![
        SqlParamView::Text(row.task),
        SqlParamView::Unsigned(row.start),
        SqlParamView::Unsigned(row.end),
        SqlParamView::Integer(row.idle),
        SqlParamView::Integer(row.status as i64),
    ]
}

/// The parameters of the statement that replaces the row of an id: the
/// fields as for an insert, then the id.
pub open spec fn spec_update_params(row: RowView) -> Seq<SqlParamView> {
    spec_insert_params(row).push(SqlParamView::Integer(row.id))
}

/// The parameters of the query by status: the status code and the limit.
pub open spec fn spec_status_params(status: u32, limit: i32) -> Seq<SqlParamView> {
    seq![SqlParamView::Integer(status as i64), SqlParamView::Integer(limit as i64)]
}

/// The parameters of the query by date: the lower bound, the upper bound
/// and the limit.
pub open spec fn spec_date_params(from: Option<u64>, to: Option<u64>, limit: i32) -> Seq<
    SqlParamView,
> {
    seq![spec_time_param(from), spec_time_param(to), SqlParamView::Integer(limit as i64)]
}

/// Whether the bounds of a query by date can be bound to it: a bound that
/// is given must fit a signed 64-bit integer, which the code of a point in
/// time before 1970 does not.
pub open spec fn bounds_can_be_bound(from: Option<u64>, to: Option<u64>) -> bool {
    can_bind(spec_time_param(from)) && can_bind(spec_time_param(to))
}

/// Whether the fields of a row can be bound to a statement: its start and
/// its end must fit a signed 64-bit integer.
pub open spec fn row_can_be_stored(row: RowView) -> bool {
    row.start <= i64::MAX && row.end <= i64::MAX
}

/// Builds the parameters of the statement that inserts `row`.
pub fn insert_params(row: &SQLTimerRow) -> (params: Vec<SqlParam>)
    ensures
        param_views(params@) == spec_insert_params(row@),
        can_bind_all(param_views(params@)) <==> row_can_be_stored(row@),
{
    let mut params: Vec<SqlParam> = Vec::new();
    params.push(SqlParam::Text(row.task.clone()));
    params.push(SqlParam::Unsigned(row.start));
    params.push(SqlParam::Unsigned(row.end));
    params.push(SqlParam::Integer(row.idle));
    params.push(SqlParam::Integer(row.status as i64));
    proof {
        let views = param_views(params@);
        assert(views =~= spec_insert_params(row@));
        if row_can_be_stored(row@) {
            assert(can_bind_all(views));
        } else {
            assert(!can_bind(views[1]) || !can_bind(views[2]));
        }
    }
    params
}

/// Builds the parameters of the statement that replaces the row of an id.
pub fn update_params(row: &SQLTimerRow) -> (params: Vec<SqlParam>)
    ensures
        param_views(params@) == spec_update_params(row@),
        can_bind_all(param_views(params@)) <==> row_can_be_stored(row@),
{
    let mut params = insert_params(row);
    let ghost fields = param_views(params@);
    params.push(SqlParam::Integer(row.id));
    proof {
        let views = param_views(params@);
        assert(views =~= spec_update_params(row@));
        if row_can_be_stored(row@) {
            assert forall|i: int| 0 <= i < views.len() implies can_bind(#[trigger] views[i]) by {
                if i < fields.len() {
                    assert(views[i] == fields[i]);
                }
            }
        } else {
            assert(!can_bind(views[1]) || !can_bind(views[2]));
        }
    }
    params
}

/// Builds the parameters of the query by status.
pub fn status_params(status: u32, limit: i32) -> (params: Vec<SqlParam>)
    ensures
        param_views(params@) == spec_status_params(status, limit),
        can_bind_all(param_views(params@)),
{
    let mut params: Vec<SqlParam> = Vec::new();
    params.push(SqlParam::Integer(status as i64));
    params.push(SqlParam::Integer(limit as i64));
    assert(param_views(params@) =~= spec_status_params(status, limit));
    params
}

/// Builds the parameters of the query by date.
pub fn date_params(from: Option<u64>, to: Option<u64>, limit: i32) -> (params: Vec<SqlParam>)
    ensures
        param_views(params@) == spec_date_params(from, to, limit),
        can_bind_all(param_views(params@)) <==> bounds_can_be_bound(from, to),
{
    let mut params: Vec<SqlParam> = Vec::new();
    params.push(
        match from {
            Some(code) => SqlParam::Unsigned(code),
            None => SqlParam::Null,
        },
    );
    params.push(
        match to {
            Some(code) => SqlParam::Unsigned(code),
            None => SqlParam::Null,
        },
    );
    params.push(SqlParam::Integer(limit as i64));
    proof {
        let views = param_views(params@);
        assert(views =~= spec_date_params(from, to, limit));
        if bounds_can_be_bound(from, to) {
            assert(can_bind_all(views));
        } else {
            assert(!can_bind(views[0]) || !can_bind(views[1]));
        }
    }
    params
}

/// Builds the one parameter of a statement that takes an integer.
pub fn integer_param(value: i64) -> (params: Vec<SqlParam>)
    ensures
        param_views(params@) == seq![SqlParamView::Integer(value)],
        can_bind_all(param_views(params@)),
{
    let mut params: Vec<SqlParam> = Vec::new();
    params.push(SqlParam::Integer(value));
    assert(param_views(params@) =~= seq![SqlParamView::Integer(value)]);
    params
}

/// Calls `rusqlite::Connection::open`, which opens the database file at
/// `path` and creates it where there is none.
///
/// Trusted: nothing. Whether the call succeeds depends on the file system.
#[verifier::external_body]
fn open_file(path: &PathBuf) -> (opened: Result<rusqlite::Connection, rusqlite::Error>) {
    rusqlite::Connection::open(path)
}

/// Calls `rusqlite::Connection::open_in_memory`, which opens a new database
/// in memory.
///
/// Trusted: nothing.
#[verifier::external_body]
fn open_memory() -> (opened: Result<rusqlite::Connection, rusqlite::Error>) {
    rusqlite::Connection::open_in_memory()
}

/// Calls `rusqlite::ToSql::to_sql` on the value that the parameter holds,
/// which makes it ready for a placeholder.
///
/// Trusted: the call fails exactly for an unsigned integer above the largest
/// signed 64-bit integer. `rusqlite` converts a `u64` with `i64::try_from`
/// and returns `Ok` for `Null`, `i64` and `String` without a condition.
#[verifier::external_body]
fn bind<'a>(param: &'a SqlParam) -> (bound: Result<
    rusqlite::types::ToSqlOutput<'a>,
    rusqlite::Error,
>)
    ensures
        bound is Ok <==> can_bind(param@),
{
    match param {
        SqlParam::Null => rusqlite::ToSql::to_sql(&rusqlite::types::Null),
        SqlParam::Integer(value) => rusqlite::ToSql::to_sql(value),
        SqlParam::Unsigned(value) => rusqlite::ToSql::to_sql(value),
        SqlParam::Text(value) => rusqlite::ToSql::to_sql(value),
    }
}

/// Calls `rusqlite::Connection::execute`, which runs one SQL statement with
/// `params` bound to its placeholders in their order and returns the number
/// of rows that it changed.
///
/// Trusted: nothing. What the statement does is up to the database.
#[verifier::external_body]
fn execute(
    conn: &rusqlite::Connection,
    sql: &str,
    params: &Vec<rusqlite::types::ToSqlOutput<'_>>,
) -> (changed: Result<usize, rusqlite::Error>) {
    conn.execute(sql, rusqlite::params_from_iter(params.iter()))
}

/// Calls `rusqlite::Connection::last_insert_rowid`, which returns the row
/// id of the most recent successful insert on the connection.
///
/// Trusted: nothing.
#[verifier::external_body]
fn last_insert_rowid(conn: &rusqlite::Connection) -> (id: i64) {
    conn.last_insert_rowid()
}

/// Calls `rusqlite::Connection::query_row` and
/// `rusqlite::OptionalExtension::optional`: runs a query and reads the first
/// column of its first row as an integer. The result is `Ok(None)` where the
/// query returns no row and `Ok(Some(None))` where the column holds `NULL`.
///
/// Trusted: nothing. What the query returns is up to the database.
#[verifier::external_body]
fn query_integer(
    conn: &rusqlite::Connection,
    sql: &str,
    params: &Vec<rusqlite::types::ToSqlOutput<'_>>,
) -> (found: Result<Option<Option<i64>>, rusqlite::Error>) {
    let read = conn.query_row(sql, rusqlite::params_from_iter(params.iter()), |row| row.get(0));
    rusqlite::OptionalExtension::optional(read)
}

/// Calls `rusqlite::Connection::prepare` and
/// `rusqlite::Statement::query_map`: runs a query and reads each row of its
/// result by the names of the six columns of a timer, in the order in which
/// the database returns them. A row that cannot be read that way is an
/// `Err` in its place.
///
/// Trusted: nothing. What the query returns is up to the database.
#[verifier::external_body]
fn query_rows(
    conn: &rusqlite::Connection,
    sql: &str,
    params: &Vec<rusqlite::types::ToSqlOutput<'_>>,
) -> (found: Result<Vec<Result<SQLTimerRow, rusqlite::Error>>, rusqlite::Error>) {
    let mut statement = conn.prepare(sql)?;
    let rows = statement.query_map(rusqlite::params_from_iter(params.iter()), |row| {
        Ok(SQLTimerRow {
            id: row.get("id")?,
            task: row.get("task")?,
            start: row.get("start")?,
            end: row.get("end")?,
            idle: row.get("idle")?,
            status: row.get("status")?,
        })
    })?;
    Ok(rows.collect())
}

/// Makes every parameter of a list ready for its placeholder.
fn bind_all<'a>(params: &'a Vec<SqlParam>) -> (bound: Result<
    Vec<rusqlite::types::ToSqlOutput<'a>>,
    StorageError,
>)
    ensures
        can_bind_all(param_views(params@)) ==> bound is Ok && bound->Ok_0@.len() == params@.len(),
        !can_bind_all(param_views(params@)) ==> bound is Err && bound->Err_0 is DatabaseError,
{
    let mut bound: Vec<rusqlite::types::ToSqlOutput<'a>> = Vec::new();
    let mut i: usize = 0;
    while i < params.len()
        invariant
            i <= params.len(),
            bound@.len() == i,
            forall|j: int| 0 <= j < i ==> can_bind(#[trigger] param_views(params@)[j]),
        decreases params.len() - i,
    {
        assert(param_views(params@)[i as int] == params@[i as int]@);
        match bind(&params[i]) {
            Ok(value) => {
                bound.push(value);
            },
            Err(e) => {
                assert(!can_bind(param_views(params@)[i as int]));
                return Err(StorageError::DatabaseError(e));
            },
        }
        i += 1;
    }
    Ok(bound)
}

/// What a stored version means to a library that expects another or the
/// same.
#[derive(Debug, Clone, Copy, PartialEq, Eq, Structural)]
pub enum VersionCheck {
    /// The stored version is the expected one: the database can be used.
    Current,
    /// Another version is stored: the database cannot be used.
    Mismatch,
    /// No version is stored: the database is new and the expected version
    /// is to be written.
    Missing,
}

/// What the version `stored` means to a library that expects `expected`.
pub open spec fn spec_check_version(stored: Option<i64>, expected: i32) -> VersionCheck {
    match stored {
        Some(version) => if version == expected {
            VersionCheck::Current
        } else {
            VersionCheck::Mismatch
        },
        None => VersionCheck::Missing,
    }
}

/// Only the expected version is accepted: a store of any other version is
/// refused, and a store without a version is a new one.
pub proof fn only_the_expected_version_is_accepted(stored: Option<i64>, expected: i32)
    ensures
        spec_check_version(stored, expected) is Current <==> stored == Some(expected as i64),
        spec_check_version(stored, expected) is Mismatch <==> stored is Some && stored != Some(
            expected as i64,
        ),
        spec_check_version(stored, expected) is Missing <==> stored is None,
        spec_admit_version(stored, expected) == Err::<bool, StorageError>(
            StorageError::SchemaVersionError,
        ) <==> stored is Some && stored != Some(expected as i64),
        spec_admit_version(stored, expected) == Ok::<bool, StorageError>(true) <==> stored
            is None,
        spec_admit_version(stored, expected) == Ok::<bool, StorageError>(false) <==> stored
            == Some(expected as i64),
{
}

/// Decides whether a database with the version `stored` can be used by a
/// library that expects the version `expected`.
pub fn check_version(stored: Option<i64>, expected: i32) -> (check: VersionCheck)
    ensures
        check == spec_check_version(stored, expected),
{
    match stored {
        Some(version) => if version == expected as i64 {
            VersionCheck::Current
        } else {
            VersionCheck::Mismatch
        },
        None => VersionCheck::Missing,
    }
}

/// Whether the version is to be written to a database with the version
/// `stored`, or why the database cannot be used by a library that expects
/// `expected`.
pub open spec fn spec_admit_version(stored: Option<i64>, expected: i32) -> Result<
    bool,
    StorageError,
> {
    match spec_check_version(stored, expected) {
        VersionCheck::Current => Ok(false),
        VersionCheck::Missing => Ok(true),
        VersionCheck::Mismatch => Err(StorageError::SchemaVersionError),
    }
}

/// Admits a database with the version `stored` to a library that expects
/// the version `expected`, or refuses it.
///
/// Fails with [`StorageError::SchemaVersionError`] exactly when a version
/// is stored that is not the expected one. Returns `Ok(true)` exactly when
/// no version is stored, so that the expected one is to be written, and
/// `Ok(false)` exactly when the expected one is stored.
pub fn admit_version(stored: Option<i64>, expected: i32) -> (write: Result<bool, StorageError>)
    ensures
        write == spec_admit_version(stored, expected),
        write == Err::<bool, StorageError>(StorageError::SchemaVersionError) <==> stored is Some
            && stored != Some(expected as i64),
        write == Ok::<bool, StorageError>(true) <==> stored is None,
        write == Ok::<bool, StorageError>(false) <==> stored == Some(expected as i64),
{
    match check_version(stored, expected) {
        VersionCheck::Current => Ok(false),
        VersionCheck::Missing => Ok(true),
        VersionCheck::Mismatch => Err(StorageError::SchemaVersionError),
    }
}

/// The version that the query for it found. No row and a row that holds
/// `NULL` both mean that none is stored.
pub fn stored_version(found: Result<Option<Option<i64>>, rusqlite::Error>) -> (version: Result<
    Option<i64>,
    StorageError,
>)
    ensures
        match found {
            Ok(Some(value)) => version == Ok::<Option<i64>, StorageError>(value),
            Ok(None) => version == Ok::<Option<i64>, StorageError>(None),
            Err(e) => version == Err::<Option<i64>, StorageError>(StorageError::DatabaseError(e)),
        },
{
    match found {
        Ok(Some(value)) => Ok(value),
        Ok(None) => Ok(None),
        Err(e) => Err(StorageError::DatabaseError(e)),
    }
}

/// Whether the query that counts the rows of an id found one.
pub fn exists_outcome(found: Result<Option<Option<i64>>, rusqlite::Error>) -> (exists: Result<
    bool,
    StorageError,
>)
    ensures
        match found {
            Ok(Some(Some(count))) => exists == Ok::<bool, StorageError>(count > 0),
            Ok(_) => exists == Ok::<bool, StorageError>(false),
            Err(e) => exists == Err::<bool, StorageError>(StorageError::DatabaseError(e)),
        },
{
    match found {
        Ok(Some(Some(count))) => Ok(count > 0),
        Ok(_) => Ok(false),
        Err(e) => Err(StorageError::DatabaseError(e)),
    }
}

/// What an update that changed `changed` rows comes to: one that changed
/// none found no timer of the id.
pub fn update_outcome(changed: Result<usize, rusqlite::Error>) -> (done: Result<(), StorageError>)
    ensures
        match changed {
            Ok(rows) => if rows == 0 {
                done == Err::<(), StorageError>(StorageError::TimerDoesNotExists)
            } else {
                done == Ok::<(), StorageError>(())
            },
            Err(e) => done == Err::<(), StorageError>(StorageError::DatabaseError(e)),
        },
{
    match changed {
        Ok(rows) => if rows == 0 {
            Err(StorageError::TimerDoesNotExists)
        } else {
            Ok(())
        },
        Err(e) => Err(StorageError::DatabaseError(e)),
    }
}

/// The number that the query that counts timers found. A count that the
/// database does not give, or gives below zero, is none.
pub fn count_outcome(found: Result<Option<Option<i64>>, rusqlite::Error>) -> (count: Result<
    u64,
    StorageError,
>)
    ensures
        match found {
            Ok(Some(Some(n))) => count == Ok::<u64, StorageError>(
                if n >= 0 {
                    n as u64
                } else {
                    0
                },
            ),
            Ok(_) => count == Ok::<u64, StorageError>(0),
            Err(e) => count == Err::<u64, StorageError>(StorageError::DatabaseError(e)),
        },
{
    match found {
        Ok(Some(Some(n))) => if n >= 0 {
            Ok(n as u64)
        } else {
            Ok(0)
        },
        Ok(_) => Ok(0),
        Err(e) => Err(StorageError::DatabaseError(e)),
    }
}

/// The row of an id among what the query for it found: the first row. That
/// there is none means that no timer has the id.
pub fn lookup_outcome(found: Result<Vec<Result<SQLTimerRow, rusqlite::Error>>, rusqlite::Error>) -> (row:
    Result<SQLTimerRow, StorageError>)
    ensures
        match found {
            Ok(rows) => if rows@.len() == 0 {
                row == Err::<SQLTimerRow, StorageError>(StorageError::TimerDoesNotExists)
            } else {
                match rows@[0] {
                    Ok(first) => row == Ok::<SQLTimerRow, StorageError>(first),
                    Err(e) => row == Err::<SQLTimerRow, StorageError>(
                        StorageError::DatabaseError(e),
                    ),
                }
            },
            Err(e) => row == Err::<SQLTimerRow, StorageError>(StorageError::DatabaseError(e)),
        },
{
    match found {
        Ok(rows) => {
            let mut rows = rows;
            if rows.len() == 0 {
                Err(StorageError::TimerDoesNotExists)
            } else {
                match rows.remove(0) {
                    Ok(first) => Ok(first),
                    Err(e) => Err(StorageError::DatabaseError(e)),
                }
            }
        },
        Err(e) => Err(StorageError::DatabaseError(e)),
    }
}

/// Whether a row of a query result could be read.
pub open spec fn is_read(item: Result<SQLTimerRow, rusqlite::Error>) -> bool {
    item is Ok
}

/// The rows of a query result that could be read, in their order.
pub open spec fn read_rows(items: Seq<Result<SQLTimerRow, rusqlite::Error>>) -> Seq<SQLTimerRow> {
    items.filter(|item: Result<SQLTimerRow, rusqlite::Error>| is_read(item)).map_values(
        |item: Result<SQLTimerRow, rusqlite::Error>| item->Ok_0,
    )
}

/// The rows that a query found: those that could be read, in the order in
/// which the database returned them. A row that could not be read is left
/// out.
pub fn rows_outcome(found: Result<Vec<Result<SQLTimerRow, rusqlite::Error>>, rusqlite::Error>) -> (rows:
    Result<Vec<SQLTimerRow>, StorageError>)
    ensures
        match found {
            Ok(items) => rows is Ok && rows->Ok_0@ == read_rows(items@),
            Err(e) => rows == Err::<Vec<SQLTimerRow>, StorageError>(
                StorageError::DatabaseError(e),
            ),
        },
{
    match found {
        Ok(items) => {
            let ghost all = items@;
            let mut items = items;
            let mut reversed: Vec<SQLTimerRow> = Vec::new();
            proof {
                lemma_read_rows_empty();
            }
            while items.len() > 0
                invariant
                    items@.len() <= all.len(),
                    items@ == all.take(items@.len() as int),
                    read_rows(all) == read_rows(items@) + reversed@.reverse(),
                decreases items.len(),
            {
                let ghost before = items@;
                let ghost kept = reversed@;
                let last = items.pop();
                proof {
                    lemma_read_rows_last(before);
                    assert(items@ == before.drop_last());
                    assert(items@ =~= all.take(items@.len() as int));
                }
                match last {
                    Some(Ok(row)) => {
                        reversed.push(row);
                        assert(reversed@.reverse() =~= seq![row] + kept.reverse());
                        assert(read_rows(before) =~= read_rows(items@) + seq![row]);
                        assert(read_rows(items@) + seq![row] + kept.reverse() =~= read_rows(
                            items@,
                        ) + (seq![row] + kept.reverse()));
                    },
                    _ => {},
                }
            }
            assert(read_rows(items@) =~= Seq::<SQLTimerRow>::empty());
            let ghost backwards = reversed@;
            let mut rows: Vec<SQLTimerRow> = Vec::new();
            while reversed.len() > 0
                invariant
                    reversed@.len() <= backwards.len(),
                    reversed@ == backwards.take(reversed@.len() as int),
                    rows@ == backwards.skip(reversed@.len() as int).reverse(),
                decreases reversed.len(),
            {
                let ghost left = reversed@;
                let ghost done = rows@;
                let next = reversed.pop();
                match next {
                    Some(row) => {
                        rows.push(row);
                        assert(reversed@ =~= backwards.take(reversed@.len() as int));
                        assert(rows@ =~= backwards.skip(reversed@.len() as int).reverse());
                    },
                    None => {},
                }
            }
            assert(rows@ =~= backwards.reverse());
            assert(read_rows(all) =~= rows@);
            Ok(rows)
        },
        Err(e) => Err(StorageError::DatabaseError(e)),
    }
}

proof fn lemma_read_rows_empty()
    ensures
        read_rows(Seq::<Result<SQLTimerRow, rusqlite::Error>>::empty()) == Seq::<
            SQLTimerRow,
        >::empty(),
{
    reveal(Seq::filter);
    assert(read_rows(Seq::<Result<SQLTimerRow, rusqlite::Error>>::empty()) =~= Seq::<
        SQLTimerRow,
    >::empty());
}

proof fn lemma_read_rows_last(items: Seq<Result<SQLTimerRow, rusqlite::Error>>)
    requires
        items.len() > 0,
    ensures
        read_rows(items) == if items.last() is Ok {
            read_rows(items.drop_last()).push(items.last()->Ok_0)
        } else {
            read_rows(items.drop_last())
        },
{
    reveal(Seq::filter);
    let keep = |item: Result<SQLTimerRow, rusqlite::Error>| is_read(item);
    let kept = items.drop_last().filter(keep);
    if items.last() is Ok {
        assert(items.filter(keep) == kept.push(items.last()));
        assert(read_rows(items) =~= read_rows(items.drop_last()).push(items.last()->Ok_0));
    } else {
        assert(items.filter(keep) == kept);
    }
}

/// The bounds of a query by date, read from the texts that were supplied
/// for them.
pub open spec fn spec_date_bounds(date_from: Option<Seq<char>>, date_to: Option<Seq<char>>)
    -> Option<(Option<u64>, Option<u64>)> {
    let from = match date_from {
        Some(text) => spec_parse_time(text),
        None => None,
    };
    let to = match date_to {
        Some(text) => spec_parse_time(text),
        None => None,
    };
    if (date_from is Some && from is None) || (date_to is Some && to is None) {
        None
    } else {
        Some((from, to))
    }
}

/// The texts of two optional strings.
pub open spec fn text_of(text: Option<String>) -> Option<Seq<char>> {
    match text {
        Some(s) => Some(s@),
        None => None,
    }
}

/// The store of the timers.
///
/// It owns the rows of the `timers` table and the one stored parameter that
/// tells which version of the layout wrote them.
#[derive(Debug)]
pub struct Storage {
    conn: rusqlite::Connection,
}

impl StorageError {
    /// The text that describes an error which is not a database failure.
    pub open spec fn spec_message(self) -> Seq<char> {
        match self {
            StorageError::TimerDoesNotExists => "Timer does not exist"@,
            StorageError::SchemaVersionError => "Version of db is no correct"@,
            StorageError::ConnectionNotFound => "Connection to storage is not found"@,
            StorageError::WrongDatetimeFormat => "Wrong date time format"@,
            StorageError::DatabaseError(_) => "DatabaseError: "@,
        }
    }

    /// Returns the text that describes the error to people. For a database
    /// failure it is `DatabaseError: ` and the text of the cause.
    pub fn message(&self) -> (text: String)
        ensures
            !(self is DatabaseError) ==> text@ == self.spec_message(),
            self is DatabaseError ==> self.spec_message().is_prefix_of(text@),
    {
        match self {
            StorageError::TimerDoesNotExists => String::from_str("Timer does not exist"),
            StorageError::SchemaVersionError => String::from_str("Version of db is no correct"),
            StorageError::ConnectionNotFound => String::from_str(
                "Connection to storage is not found",
            ),
            StorageError::WrongDatetimeFormat => String::from_str("Wrong date time format"),
            StorageError::DatabaseError(e) => {
                let cause = e.to_string();
                let text = String::from_str("DatabaseError: ").concat(cause.as_str());
                assert("DatabaseError: "@.is_prefix_of("DatabaseError: "@ + cause@));
                text
            },
        }
    }
}

impl Storage {
    /// Opens a store in memory. It is empty and lives as long as the value.
    pub fn from_memory() -> (opened: Result<Storage, StorageError>)
        ensures
            opened is Err ==> opened->Err_0 is DatabaseError || opened->Err_0 is SchemaVersionError,
    {
        Storage::new(None)
    }

    /// Opens the store in the file at `path`, which is created where there
    /// is none.
    pub fn from_path(path: PathBuf) -> (opened: Result<Storage, StorageError>)
        ensures
            opened is Err ==> opened->Err_0 is DatabaseError || opened->Err_0 is SchemaVersionError,
    {
        Storage::new(Some(path))
    }

    /// Reads a point in time from `time_s` and encodes it for a row.
    ///
    /// Fails with [`StorageError::WrongDatetimeFormat`] exactly when the
    /// text gives no point in time, as a text does that is empty but for
    /// white space.
    pub fn str_to_time(time_s: String) -> (time: Result<u64, StorageError>)
        ensures
            match spec_parse_time(time_s@) {
                Some(code) => time == Ok::<u64, StorageError>(code),
                None => time == Err::<u64, StorageError>(StorageError::WrongDatetimeFormat),
            },
            is_blank(time_s@) ==> time == Err::<u64, StorageError>(
                StorageError::WrongDatetimeFormat,
            ),
    {
        match parse_time(time_s.as_str()) {
            Some(code) => Ok(code),
            None => Err(StorageError::WrongDatetimeFormat),
        }
    }

    /// Opens a store: in the file at `path`, or in memory where none is
    /// given.
    ///
    /// The two tables are created where they are missing. Then the stored
    /// version is read and held against [`SCHEMA_VERSION`] by
    /// [`admit_version`], whose result is handed on: a store of another
    /// version is refused with [`StorageError::SchemaVersionError`], and a
    /// store without a version gets this one written.
    pub fn new(path: Option<PathBuf>) -> (opened: Result<Storage, StorageError>)
        ensures
            opened is Err ==> opened->Err_0 is DatabaseError || opened->Err_0 is SchemaVersionError,
    {
        let connected = match path {
            Some(path) => open_file(&path),
            None => open_memory(),
        };
        let storage = match connected {
            Ok(conn) => Storage { conn },
            Err(e) => {
                return Err(StorageError::DatabaseError(e));
            },
        };
        let none: Vec<rusqlite::types::ToSqlOutput<'_>> = Vec::new();
        match execute(&storage.conn, CREATE_PARAMS, &none) {
            Ok(_) => {},
            Err(e) => {
                return Err(StorageError::DatabaseError(e));
            },
        }
        match execute(&storage.conn, CREATE_TIMERS, &none) {
            Ok(_) => {},
            Err(e) => {
                return Err(StorageError::DatabaseError(e));
            },
        }
        let stored = match storage.get_version() {
            Ok(stored) => stored,
            Err(e) => {
                return Err(e);
            },
        };
        let write = match admit_version(stored, SCHEMA_VERSION) {
            Ok(write) => write,
            Err(e) => {
                return Err(e);
            },
        };
        if write {
            let params = integer_param(SCHEMA_VERSION as i64);
            let written = match bind_all(&params) {
                Ok(bound) => execute(&storage.conn, INSERT_VERSION, &bound),
                Err(e) => {
                    return Err(e);
                },
            };
            match written {
                Ok(_) => {},
                Err(e) => {
                    return Err(StorageError::DatabaseError(e));
                },
            }
        }
        Ok(storage)
    }

    /// Reads the stored version of the layout.
    fn get_version(&self) -> (version: Result<Option<i64>, StorageError>)
        ensures
            version is Err ==> version->Err_0 is DatabaseError,
    {
        let none: Vec<rusqlite::types::ToSqlOutput<'_>> = Vec::new();
        stored_version(query_integer(&self.conn, SELECT_VERSION, &none))
    }

    /// Whether the store holds a timer of the given id.
    pub fn is_timer_exist(&self, id: i64) -> (exists: Result<bool, StorageError>)
        ensures
            exists is Err ==> exists->Err_0 is DatabaseError,
    {
        let params = integer_param(id);
        match bind_all(&params) {
            Ok(bound) => exists_outcome(query_integer(&self.conn, COUNT_BY_ID, &bound)),
            Err(e) => Err(e),
        }
    }

    /// Inserts `timer` as a new row and returns the id that the database
    /// assigned to it. The id of `timer` itself is not used.
    ///
    /// Fails with a database error where the start or the end of the row
    /// does not fit a signed 64-bit integer, and where the database fails.
    pub fn insert_timer(&self, timer: &SQLTimerRow) -> (id: Result<i64, StorageError>)
        ensures
            id is Err ==> id->Err_0 is DatabaseError,
            !row_can_be_stored(timer@) ==> id is Err,
    {
        let params = insert_params(timer);
        match bind_all(&params) {
            Ok(bound) => match execute(&self.conn, INSERT_TIMER, &bound) {
                Ok(_) => Ok(last_insert_rowid(&self.conn)),
                Err(e) => Err(StorageError::DatabaseError(e)),
            },
            Err(e) => Err(e),
        }
    }

    /// Replaces the fields of the row that has the id of `timer`.
    ///
    /// Fails with [`StorageError::TimerDoesNotExists`] where the update
    /// changed no row, and with a database error where the start or the end
    /// of the row does not fit a signed 64-bit integer or the database
    /// fails.
    pub fn update_timer(&self, timer: &SQLTimerRow) -> (done: Result<(), StorageError>)
        ensures
            done is Err ==> done->Err_0 is DatabaseError || done->Err_0 is TimerDoesNotExists,
            !row_can_be_stored(timer@) ==> done is Err && done->Err_0 is DatabaseError,
    {
        let params = update_params(timer);
        match bind_all(&params) {
            Ok(bound) => update_outcome(execute(&self.conn, UPDATE_TIMER, &bound)),
            Err(e) => Err(e),
        }
    }

    /// Returns the row of the given id.
    ///
    /// Fails with [`StorageError::TimerDoesNotExists`] where the store holds
    /// no such row.
    pub fn get_timer_by_id(&self, id: i64) -> (row: Result<SQLTimerRow, StorageError>)
        ensures
            row is Err ==> row->Err_0 is DatabaseError || row->Err_0 is TimerDoesNotExists,
    {
        let params = integer_param(id);
        match bind_all(&params) {
            Ok(bound) => lookup_outcome(query_rows(&self.conn, SELECT_BY_ID, &bound)),
            Err(e) => Err(e),
        }
    }

    /// Counts the timers of the given status code.
    pub fn count_timers_by_status(&self, status: u32) -> (count: Result<u64, StorageError>)
        ensures
            count is Err ==> count->Err_0 is DatabaseError,
    {
        let params = integer_param(status as i64);
        match bind_all(&params) {
            Ok(bound) => count_outcome(query_integer(&self.conn, COUNT_BY_STATUS, &bound)),
            Err(e) => Err(e),
        }
    }

    /// Returns the rows of the given status code, the highest id first, at
    /// most `limit` of them. A negative `limit` is none.
    pub fn get_timers_by_status(&self, status: u32, limit: i32) -> (rows: Result<
        Vec<SQLTimerRow>,
        StorageError,
    >)
        ensures
            rows is Err ==> rows->Err_0 is DatabaseError,
    {
        let params = status_params(status, limit);
        match bind_all(&params) {
            Ok(bound) => rows_outcome(query_rows(&self.conn, SELECT_BY_STATUS, &bound)),
            Err(e) => Err(e),
        }
    }

    /// Returns the rows whose start is at or after `date_from` and before
    /// `date_to`, the latest start first, at most `limit` of them. A bound
    /// that is not given does not bound, and a negative `limit` is none.
    ///
    /// Fails with [`StorageError::WrongDatetimeFormat`] exactly when a bound
    /// is given that gives no point in time, and then before the database is
    /// asked anything. Fails with a database error where a bound lies before
    /// 1970, whose code cannot be bound, and where the database fails.
    pub fn get_timers_by_date(
        &self,
        limit: i32,
        date_from: Option<String>,
        date_to: Option<String>,
    ) -> (rows: Result<Vec<SQLTimerRow>, StorageError>)
        ensures
            spec_date_bounds(text_of(date_from), text_of(date_to)) is None <==> rows == Err::<
                Vec<SQLTimerRow>,
                StorageError,
            >(StorageError::WrongDatetimeFormat),
            spec_date_bounds(text_of(date_from), text_of(date_to)) matches Some(bounds)
                && !bounds_can_be_bound(bounds.0, bounds.1) ==> rows is Err && rows->Err_0
                is DatabaseError,
            rows is Err ==> rows->Err_0 is DatabaseError || rows->Err_0 is WrongDatetimeFormat,
    {
        let (from, to) = match date_bounds(date_from, date_to) {
            Ok(bounds) => bounds,
            Err(e) => {
                return Err(e);
            },
        };
        let params = date_params(from, to, limit);
        match bind_all(&params) {
            Ok(bound) => rows_outcome(query_rows(&self.conn, SELECT_BY_DATE, &bound)),
            Err(e) => Err(e),
        }
    }
}

/// Reads the bounds of a query by date from the texts supplied for them.
///
/// Fails with [`StorageError::WrongDatetimeFormat`] exactly when a text is
/// supplied that gives no point in time.
pub fn date_bounds(date_from: Option<String>, date_to: Option<String>) -> (bounds: Result<
    (Option<u64>, Option<u64>),
    StorageError,
>)
    ensures
        match spec_date_bounds(text_of(date_from), text_of(date_to)) {
            Some(read) => bounds == Ok::<(Option<u64>, Option<u64>), StorageError>(read),
            None => bounds == Err::<(Option<u64>, Option<u64>), StorageError>(
                StorageError::WrongDatetimeFormat,
            ),
        },
{
    let from = match date_from {
        Some(text) => match Storage::str_to_time(text) {
            Ok(code) => Some(code),
            Err(e) => {
                return Err(e);
            },
        },
        None => None,
    };
    let to = match date_to {
        Some(text) => match Storage::str_to_time(text) {
            Ok(code) => Some(code),
            Err(e) => {
                return Err(e);
            },
        },
        None => None,
    };
    Ok((from, to))
}

} // verus!
