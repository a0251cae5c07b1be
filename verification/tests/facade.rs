use nvl_store::facade::{run_sql_on, greet};
use nvl_store::value::{CellValue, Outcome, Record};

fn conn() -> rusqlite::Connection {
    let c = rusqlite::Connection::open_in_memory().expect("open in-memory database");
    c.execute("PRAGMA foreign_keys = ON;", []).expect("enable foreign keys");
    c
}

fn rows(r: Result<Outcome, String>) -> Vec<Record> {
    match r {
        Ok(Outcome::Rows(rs)) => rs,
        Ok(Outcome::Affected(n)) => panic!("expected rows, got affected count {}", n),
        Err(e) => panic!("expected rows, got error: {}", e),
    }
}

fn affected(r: Result<Outcome, String>) -> usize {
    match r {
        Ok(Outcome::Affected(n)) => n,
        Ok(Outcome::Rows(_)) => panic!("expected an affected count, got rows"),
        Err(e) => panic!("expected an affected count, got error: {}", e),
    }
}

#[test]
fn select_returns_rows_even_when_empty() {
    let c = conn();
    affected(run_sql_on(&c, "CREATE TABLE t (a INTEGER, b TEXT)"));
    let rs = rows(run_sql_on(&c, "SELECT * FROM t"));
    assert_eq!(rs.len(), 0);
}

#[test]
fn write_returns_affected_count() {
    let c = conn();
    assert_eq!(affected(run_sql_on(&c, "CREATE TABLE t (a INTEGER)")), 0);
    assert_eq!(affected(run_sql_on(&c, "INSERT INTO t (a) VALUES (1), (2)")), 2);
    assert_eq!(affected(run_sql_on(&c, "UPDATE t SET a = 9 WHERE a = 77")), 0);
}

#[test]
fn round_trip_of_inserted_values() {
    let c = conn();
    affected(run_sql_on(&c, "CREATE TABLE t (i INTEGER, r REAL, s TEXT, n INTEGER)"));
    assert_eq!(
        affected(run_sql_on(&c, "INSERT INTO t (i, r, s, n) VALUES (42, 3.5, 'abc', NULL)")),
        1
    );
    let rs = rows(run_sql_on(&c, "SELECT i, r, s, n FROM t"));
    assert_eq!(rs.len(), 1);
    let fields = &rs[0].fields;
    assert_eq!(fields.len(), 4);
    assert_eq!(fields[0].0, "i");
    match &fields[0].1 {
        CellValue::Integer(v) => assert_eq!(*v, 42),
        _ => panic!("expected an integer cell"),
    }
    assert_eq!(fields[1].0, "r");
    match &fields[1].1 {
        CellValue::Real(bits) => assert_eq!(*bits, (3.5f64).to_bits()),
        _ => panic!("expected a floating-point cell"),
    }
    assert_eq!(fields[2].0, "s");
    match &fields[2].1 {
        CellValue::Text(s) => assert_eq!(s, "abc"),
        _ => panic!("expected a text cell"),
    }
    assert_eq!(fields[3].0, "n");
    assert!(matches!(fields[3].1, CellValue::Null));
}

#[test]
fn column_order_follows_the_statement() {
    let c = conn();
    affected(run_sql_on(&c, "CREATE TABLE t (a INTEGER, b INTEGER)"));
    affected(run_sql_on(&c, "INSERT INTO t (a, b) VALUES (1, 2)"));
    let rs = rows(run_sql_on(&c, "SELECT b, a FROM t"));
    assert_eq!(rs.len(), 1);
    assert_eq!(rs[0].fields[0].0, "b");
    assert_eq!(rs[0].fields[1].0, "a");
    match rs[0].fields[0].1 {
        CellValue::Integer(v) => assert_eq!(v, 2),
        _ => panic!("expected an integer cell"),
    }
    match rs[0].fields[1].1 {
        CellValue::Integer(v) => assert_eq!(v, 1),
        _ => panic!("expected an integer cell"),
    }
}

#[test]
fn select_one_is_idempotent() {
    let c = conn();
    for _ in 0..5 {
        let rs = rows(run_sql_on(&c, "SELECT 1"));
        assert_eq!(rs.len(), 1);
        assert_eq!(rs[0].fields.len(), 1);
        assert_eq!(rs[0].fields[0].0, "1");
        match rs[0].fields[0].1 {
            CellValue::Integer(v) => assert_eq!(v, 1),
            _ => panic!("expected an integer cell"),
        }
    }
}

#[test]
fn malformed_sql_surfaces_a_failure_string() {
    let c = conn();
    let r = run_sql_on(&c, "SELEKT * FROM t");
    match r {
        Err(msg) => {
            assert!(!msg.is_empty());
            assert!(msg.starts_with("Execute error: "));
        }
        Ok(_) => panic!("malformed SQL must fail"),
    }
}

#[test]
fn failing_read_surfaces_a_failure_string() {
    let c = conn();
    let r = run_sql_on(&c, "SELECT * FROM no_such_table");
    match r {
        Err(msg) => {
            assert!(!msg.is_empty());
            assert!(msg.starts_with("Prepare error: "));
        }
        Ok(_) => panic!("a read of a missing table must fail"),
    }
}

#[test]
fn pragma_takes_the_read_path() {
    let c = conn();
    affected(run_sql_on(&c, "CREATE TABLE t (a INTEGER, b TEXT)"));
    let rs = rows(run_sql_on(&c, "PRAGMA table_info(t)"));
    assert_eq!(rs.len(), 2);
    let name_col = rs[0].fields.iter().position(|f| f.0 == "name").expect("a name column");
    match &rs[0].fields[name_col].1 {
        CellValue::Text(s) => assert_eq!(s, "a"),
        _ => panic!("expected a text cell"),
    }
}

#[test]
fn blob_cells_reach_the_wire_as_null() {
    let c = conn();
    affected(run_sql_on(&c, "CREATE TABLE t (x BLOB)"));
    assert_eq!(affected(run_sql_on(&c, "INSERT INTO t (x) VALUES (X'0102')")), 1);
    let rs = rows(run_sql_on(&c, "SELECT x FROM t"));
    assert_eq!(rs.len(), 1);
    assert!(matches!(rs[0].fields[0].1, CellValue::Null));
}

#[test]
fn explicit_transactions_pass_through() {
    let c = conn();
    affected(run_sql_on(&c, "CREATE TABLE t (a INTEGER)"));
    affected(run_sql_on(&c, "BEGIN"));
    assert_eq!(affected(run_sql_on(&c, "INSERT INTO t (a) VALUES (7)")), 1);
    affected(run_sql_on(&c, "COMMIT"));
    let rs = rows(run_sql_on(&c, "SELECT a FROM t"));
    assert_eq!(rs.len(), 1);
}

#[test]
fn missing_column_names_become_empty_strings() {
    let c = conn();
    let rs = rows(run_sql_on(&c, "SELECT 1 AS \"\""));
    assert_eq!(rs.len(), 1);
    assert_eq!(rs[0].fields[0].0, "");
    match rs[0].fields[0].1 {
        CellValue::Integer(v) => assert_eq!(v, 1),
        _ => panic!("expected an integer cell"),
    }
}

#[test]
fn greet_formats_the_name() {
    assert_eq!(greet("World"), "Hello, World! You've been greeted from Rust!");
}
