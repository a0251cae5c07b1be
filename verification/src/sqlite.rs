//! The connection provider and the trusted boundary to the embedded SQL
//! engine. Each item marked `external_body` is believed, not verified: its
//! doc comment names the outside function relied on.

use vstd::prelude::*;
use crate::value::CellValue;

verus! {

#[verifier::external_type_specification]
#[verifier::external_body]
pub struct ExConnection(rusqlite::Connection);

#[verifier::external_type_specification]
#[verifier::external_body]
pub struct ExStatement<'conn>(rusqlite::Statement<'conn>);

#[verifier::external_type_specification]
#[verifier::external_body]
pub struct ExRow<'stmt>(rusqlite::Row<'stmt>);

#[verifier::external_type_specification]
#[verifier::external_body]
pub struct ExSqlError(rusqlite::Error);

/// Relies on rusqlite::Connection::open: opens the database file at `path`,
/// creating it if absent, and fails if the file cannot be opened or created.
#[verifier::external_body]
pub(crate) fn open_connection(path: &str) -> Result<rusqlite::Connection, rusqlite::Error> {
    rusqlite::Connection::open(path)
}

/// Relies on rusqlite::Connection::execute: runs one statement with no
/// parameters and returns the number of rows changed, or the engine's error
/// (also when the statement would have returned rows).
#[verifier::external_body]
pub(crate) fn exec_sql(conn: &rusqlite::Connection, sql: &str) -> Result<usize, rusqlite::Error> {
    conn.execute(sql, [])
}

/// Relies on rusqlite::Connection::prepare: compiles one statement against
/// the connection, or returns the engine's error.
#[verifier::external_body]
pub(crate) fn prepare<'c>(conn: &'c rusqlite::Connection, sql: &str) -> Result<
    rusqlite::Statement<'c>,
    rusqlite::Error,
> {
    conn.prepare(sql)
}

/// Relies on rusqlite::Statement::column_count: the number of columns in the
/// prepared statement's result set.
#[verifier::external_body]
pub(crate) fn column_count(stmt: &rusqlite::Statement<'_>) -> usize {
    stmt.column_count()
}

/// Relies on rusqlite::Statement::column_name: the name of result column
/// `i`, or an empty string where the engine reports none. rusqlite panics
/// only on a column name that is not Unicode text, which SQLite does not
/// produce for a statement prepared from Rust text.
#[verifier::external_body]
pub(crate) fn column_name_or_empty(stmt: &rusqlite::Statement<'_>, i: usize) -> String {
    match stmt.column_name(i) {
        Ok(s) => s.to_owned(),
        Err(_) => String::new(),
    }
}

/// Relies on rusqlite::Row::get at type rusqlite::types::Value: reads cell
/// `i` of the row and tags it with its native kind; a floating-point cell is
/// carried as its 64-bit IEEE bit pattern.
#[verifier::external_body]
pub(crate) fn get_cell(row: &rusqlite::Row<'_>, i: usize) -> Result<CellValue, rusqlite::Error> {
    match row.get::<usize, rusqlite::types::Value>(i) {
        Ok(rusqlite::types::Value::Null) => Ok(CellValue::Null),
        Ok(rusqlite::types::Value::Integer(n)) => Ok(CellValue::Integer(n)),
        Ok(rusqlite::types::Value::Real(x)) => Ok(CellValue::Real(x.to_bits())),
        Ok(rusqlite::types::Value::Text(s)) => Ok(CellValue::Text(s)),
        Ok(rusqlite::types::Value::Blob(b)) => Ok(CellValue::Blob(b)),
        Err(e) => Err(e),
    }
}

/// Reads the `ncols` cells of one result row, in column order.
pub(crate) fn marshal_row(row: &rusqlite::Row<'_>, ncols: usize) -> (r: Result<
    Vec<CellValue>,
    rusqlite::Error,
>)
    ensures
        r matches Ok(cells) ==> cells@.len() == ncols,
{
    let mut cells: Vec<CellValue> = Vec::new();
    let mut i: usize = 0;
    while i < ncols
        invariant
            cells@.len() == i,
            i <= ncols,
        decreases ncols - i,
    {
        match get_cell(row, i) {
            Ok(c) => cells.push(c),
            Err(e) => {
                return Err(e);
            },
        }
        i += 1;
    }
    Ok(cells)
}

/// Relies on rusqlite::Statement::query_map with no parameters: runs the
/// query and hands each result row, in order, to `marshal_row`, stopping at
/// the first error; the rows are materialized eagerly. Every returned row
/// has exactly `ncols` cells, which is `marshal_row`'s contract.
#[verifier::external_body]
pub(crate) fn query_all(stmt: &mut rusqlite::Statement<'_>, ncols: usize) -> (r: Result<
    Vec<Vec<CellValue>>,
    rusqlite::Error,
>)
    ensures
        r matches Ok(rows) ==> forall|k: int|
            0 <= k < rows@.len() ==> #[trigger] rows@[k]@.len() == ncols,
{
    match stmt.query_map([], |row| marshal_row(row, ncols)) {
        Ok(mapped) => mapped.collect(),
        Err(e) => Err(e),
    }
}

/// Relies on the Display impl of rusqlite::Error for the human-readable
/// description of an engine error.
#[verifier::external_body]
pub(crate) fn error_message(e: &rusqlite::Error) -> String {
    format!("{}", e)
}

/// Relies on dirs_next::document_dir: the platform's documents location, or
/// None where the platform defines none or the path is not Unicode text.
/// The result depends on the environment, so nothing more is promised of it.
#[verifier::external_body]
pub(crate) fn documents_dir() -> Option<String> {
    match dirs_next::document_dir() {
        Some(p) => match p.to_str() {
            Some(s) => Some(s.to_owned()),
            None => None,
        },
        None => None,
    }
}

/// Builds a failure message from a fixed prefix and the engine's error text.
pub(crate) fn err_text(prefix: &str, e: &rusqlite::Error) -> (r: String)
    requires
        prefix@.len() > 0,
    ensures
        r@.len() > 0,
{
    let msg = error_message(e);
    String::from_str(prefix).concat(msg.as_str())
}

/// Acquires a handle to the application's database file under the user's
/// documents area and enables foreign-key enforcement on it before handing
/// it out; a failure to do either is reported as a non-empty message, never
/// ignored. The application directory itself must already exist: creating
/// directories is the embedding program's part (see `crate::paths`).
pub fn get_connection() -> (r: Result<rusqlite::Connection, String>)
    ensures
        r matches Err(e) ==> e@.len() > 0,
{
    proof {
        reveal_strlit("Connection error: no documents directory is available");
        reveal_strlit("Connection error: ");
    }
    let docs = match documents_dir() {
        Some(d) => d,
        None => {
            return Err(
                String::from_str("Connection error: no documents directory is available"),
            );
        },
    };
    let db = crate::paths::db_path_in(docs.as_str());
    let conn = match open_connection(db.as_str()) {
        Ok(c) => c,
        Err(e) => {
            return Err(err_text("Connection error: ", &e));
        },
    };
    match exec_sql(&conn, "PRAGMA foreign_keys = ON;") {
        Ok(_) => Ok(conn),
        Err(e) => Err(err_text("Connection error: ", &e)),
    }
}

} // verus!
