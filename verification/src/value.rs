//! The value model of the marshalling boundary: the tagged representation of
//! one database cell, the per-row record that pairs column names with cell
//! values, and the uniform outcome of one statement execution.

use vstd::prelude::*;

verus! {

/// One database cell, tagged with its native kind.
///
/// A floating-point cell is carried as the IEEE 754 bit pattern of the
/// 64-bit value, so that the model stays exact; readers that need the
/// number itself reconstruct it from the bits at the boundary.
pub enum CellValue {
    Null,
    Integer(i64),
    Real(u64),
    Text(String),
    Blob(Vec<u8>),
}

/// One row of a read statement's result: column names paired with cell
/// values, in the column order the statement declared.
pub struct Record {
    pub fields: Vec<(String, CellValue)>,
}

/// The uniform result of executing one statement: the rows of a read, or
/// the affected-row count of a write.
pub enum Outcome {
    Rows(Vec<Record>),
    Affected(usize),
}

/// The wire form of a cell: binary cells have no defined representation in
/// the output shape and are mapped to null; every other kind passes through.
pub open spec fn json_of(v: CellValue) -> CellValue {
    match v {
        CellValue::Blob(_) => CellValue::Null,
        _ => v,
    }
}

/// Maps one cell to its wire form.
pub fn value_to_json(v: CellValue) -> (r: CellValue)
    ensures
        r == json_of(v),
{
    match v {
        CellValue::Blob(_) => CellValue::Null,
        other => other,
    }
}

/// What it means for a sequence of records to be the marshalled form of the
/// raw rows under the column names `names`: one record per row, each pairing
/// the names, in order, with the wire forms of that row's cells.
pub open spec fn records_of(
    names: Seq<String>,
    rows: Seq<Seq<CellValue>>,
    recs: Seq<Record>,
) -> bool {
    &&& recs.len() == rows.len()
    &&& forall|k: int|
        0 <= k < recs.len() ==> #[trigger] recs[k].fields@.len() == names.len()
    &&& forall|k: int, j: int|
        0 <= k < recs.len() && 0 <= j < names.len() ==> #[trigger] recs[k].fields@[j]
            == (names[j], json_of(rows[k][j]))
}

/// Builds one record by zipping the column names with one row's cells.
fn assemble_one(names: &Vec<String>, row: Vec<CellValue>) -> (rec: Record)
    requires
        row@.len() == names@.len(),
    ensures
        rec.fields@.len() == names@.len(),
        forall|j: int|
            0 <= j < names@.len() ==> #[trigger] rec.fields@[j] == (
                names@[j],
                json_of(row@[j]),
            ),
{
    let ghost orig = row@;
    let mut row = row;
    let mut fields: Vec<(String, CellValue)> = Vec::new();
    let n = names.len();
    let mut i: usize = 0;
    while i < n
        invariant
            n == names@.len(),
            i <= n,
            row@ =~= orig.subrange(i as int, n as int),
            orig.len() == n,
            fields@.len() == i,
            forall|j: int|
                0 <= j < i ==> #[trigger] fields@[j] == (names@[j], json_of(orig[j])),
        decreases n - i,
    {
        let name = names[i].clone();
        let cell = row.remove(0);
        proof {
            assert(cell == orig[i as int]);
            assert(name == names@[i as int]);
        }
        fields.push((name, value_to_json(cell)));
        proof {
            assert(row@ =~= orig.subrange(i as int + 1, n as int));
        }
        i += 1;
    }
    Record { fields }
}

/// Builds the result records of a read statement: one record per raw row,
/// each record's field order equal to the column order in `names`.
pub fn assemble_records(names: &Vec<String>, rows: Vec<Vec<CellValue>>) -> (recs: Vec<Record>)
    requires
        forall|k: int| 0 <= k < rows@.len() ==> #[trigger] rows@[k]@.len() == names@.len(),
    ensures
        records_of(names@, rows@.map_values(|r: Vec<CellValue>| r@), recs@),
{
    let ghost orig = rows@;
    let mut rows = rows;
    let mut recs: Vec<Record> = Vec::new();
    let n = rows.len();
    let mut k: usize = 0;
    while k < n
        invariant
            n == orig.len(),
            k <= n,
            rows@ =~= orig.subrange(k as int, n as int),
            forall|t: int| 0 <= t < orig.len() ==> #[trigger] orig[t]@.len() == names@.len(),
            recs@.len() == k,
            forall|t: int|
                0 <= t < k ==> #[trigger] recs@[t].fields@.len() == names@.len(),
            forall|t: int, j: int|
                0 <= t < k && 0 <= j < names@.len() ==> #[trigger] recs@[t].fields@[j] == (
                    names@[j],
                    json_of(orig[t]@[j]),
                ),
        decreases n - k,
    {
        let row = rows.remove(0);
        proof {
            assert(row == orig[k as int]);
        }
        let rec = assemble_one(names, row);
        recs.push(rec);
        proof {
            assert(rows@ =~= orig.subrange(k as int + 1, n as int));
        }
        k += 1;
    }
    proof {
        let mapped = orig.map_values(|r: Vec<CellValue>| r@);
        assert(mapped.len() == orig.len());
        assert forall|t: int, j: int|
            0 <= t < recs@.len() && 0 <= j < names@.len() implies #[trigger] recs@[t].fields@[j]
            == (names@[j], json_of(mapped[t][j])) by {
            assert(mapped[t] == orig[t]@);
        }
    }
    recs
}

} // verus!
