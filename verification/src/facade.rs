//! The execution facade: the single entry point that classifies a statement,
//! executes it against a connection, and returns one uniform outcome — the
//! marshalled rows of a read, or the affected-row count of a write — or a
//! non-empty descriptive failure message.

use vstd::prelude::*;
use crate::classify::{classify, is_read_stmt, StmtKind};
use crate::sqlite::{
    column_count, column_name_or_empty, err_text, exec_sql, get_connection, prepare, query_all,
};
use crate::value::{assemble_records, json_of, records_of, Outcome, Record};

verus! {

/// Every record carries the same number of fields under the same column
/// names, in the same order.
pub open spec fn uniform_records(recs: Seq<Record>) -> bool {
    forall|k1: int, k2: int, j: int|
        0 <= k1 < recs.len() && 0 <= k2 < recs.len() && 0 <= j < recs[k1].fields@.len()
            ==> #[trigger] recs[k1].fields@.len() == recs[k2].fields@.len()
            && recs[k1].fields@[j].0 == #[trigger] recs[k2].fields@[j].0
}

/// No binary value reaches the wire form: every field holds the wire
/// mapping of some cell.
pub open spec fn no_blob_values(recs: Seq<Record>) -> bool {
    forall|k: int, j: int|
        0 <= k < recs.len() && 0 <= j < recs[k].fields@.len() ==> !(#[trigger] recs[k].fields@[j].1
            is Blob)
}

/// What the facade owes of its result for the statement `query`: a success
/// is rows exactly when the statement is classified as a read and a count
/// exactly when it is classified as a write; returned records share one
/// column order and hold no binary value; a failure message is never empty.
pub open spec fn facade_contract(query: Seq<char>, r: Result<Outcome, String>) -> bool {
    &&& (r matches Ok(o) ==> ((o is Rows) <==> is_read_stmt(query)))
    &&& (r matches Ok(o) ==> ((o is Affected) <==> !is_read_stmt(query)))
    &&& (r matches Ok(o) ==> (o is Rows ==> uniform_records(o->Rows_0@) && no_blob_values(
        o->Rows_0@,
    )))
    &&& (r matches Err(e) ==> e@.len() > 0)
}

/// Runs one read statement against the connection: prepares it, captures the
/// column names once, materializes every row, and zips names with cells in
/// column order.
fn run_read(conn: &rusqlite::Connection, query: &str) -> (r: Result<Vec<Record>, String>)
    ensures
        r matches Ok(recs) ==> uniform_records(recs@) && no_blob_values(recs@),
        r matches Err(e) ==> e@.len() > 0,
{
    proof {
        reveal_strlit("Prepare error: ");
        reveal_strlit("Query error: ");
    }
    let mut stmt = match prepare(conn, query) {
        Ok(s) => s,
        Err(e) => {
            return Err(err_text("Prepare error: ", &e));
        },
    };
    let ncols = column_count(&stmt);
    let mut names: Vec<String> = Vec::new();
    let mut i: usize = 0;
    while i < ncols
        invariant
            names@.len() == i,
            i <= ncols,
        decreases ncols - i,
    {
        names.push(column_name_or_empty(&stmt, i));
        i += 1;
    }
    let rows = match query_all(&mut stmt, ncols) {
        Ok(r) => r,
        Err(e) => {
            return Err(err_text("Query error: ", &e));
        },
    };
    let recs = assemble_records(&names, rows);
    proof {
        let mapped = rows@.map_values(|r: Vec<crate::value::CellValue>| r@);
        assert(records_of(names@, mapped, recs@));
        assert forall|k: int, j: int|
            0 <= k < recs@.len() && 0 <= j < recs@[k].fields@.len() implies !(
        #[trigger] recs@[k].fields@[j].1 is Blob) by {
            assert(recs@[k].fields@[j] == (names@[j], json_of(mapped[k][j])));
        }
    }
    Ok(recs)
}

/// Executes one statement against the given connection and reports the
/// uniform outcome: the marshalled rows of a read, or the affected-row
/// count of a write. Execution is fail-fast: the first error aborts the
/// call with a non-empty message and no partial result.
pub fn run_sql_on(conn: &rusqlite::Connection, query: &str) -> (r: Result<Outcome, String>)
    ensures
        facade_contract(query@, r),
{
    match classify(query) {
        StmtKind::Read => {
            match run_read(conn, query) {
                Ok(recs) => Ok(Outcome::Rows(recs)),
                Err(e) => Err(e),
            }
        },
        StmtKind::Write => {
            proof {
                reveal_strlit("Execute error: ");
            }
            match exec_sql(conn, query) {
                Ok(count) => Ok(Outcome::Affected(count)),
                Err(e) => Err(err_text("Execute error: ", &e)),
            }
        },
    }
}

/// The full facade: acquires a fresh connection handle to the application's
/// database (released when the call returns, on success and failure alike)
/// and executes the statement on it.
pub fn run_sql(query: &str) -> (r: Result<Outcome, String>)
    ensures
        facade_contract(query@, r),
{
    let conn = match get_connection() {
        Ok(c) => c,
        Err(e) => {
            return Err(e);
        },
    };
    run_sql_on(&conn, query)
}

/// Builds the greeting for `name`.
pub fn greet(name: &str) -> (r: String)
    ensures
        r@ == "Hello, "@ + name@ + "! You've been greeted from Rust!"@,
{
    String::from_str("Hello, ").concat(name).concat("! You've been greeted from Rust!")
}

} // verus!
