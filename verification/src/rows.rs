//! Owned result rows and the generic row-mapping engine.

use vstd::prelude::*;

verus! {

/// One column of one result row, carried as an owned plain value.
///
/// A floating-point column is carried as the raw bit pattern of its 64-bit
/// value, so the library itself stays free of floating point.
pub enum ColumnValue {
    Null,
    Integer(i64),
    RealBits(u64),
    Text(String),
    Blob(Vec<u8>),
}

/// One result row: its column values, in column order.
pub struct Row {
    pub values: Vec<ColumnValue>,
}

/// Holds when a mapping function asks nothing of the rows it is handed, so
/// it can be applied to whatever rows the store yields.
pub open spec fn maps_any_row<T, E, F: Fn(&Row) -> Result<T, E>>(f: F) -> bool {
    forall|row: &Row| #[trigger] call_requires(f, (row,))
}

/// Holds when the mapping function admits a successful result on every row
/// of the prefix `rows[0..i]`.
pub open spec fn prefix_admits_ok<T, E, F: Fn(&Row) -> Result<T, E>>(
    f: F,
    rows: Seq<Row>,
    i: int,
) -> bool
    decreases i,
{
    i > 0 ==> {
        &&& prefix_admits_ok(f, rows, i - 1)
        &&& exists|t: T| #[trigger] call_ensures(f, (&rows[i - 1],), Ok(t))
    }
}

/// Holds when `out` is exactly the rows of `rows`, in order, each mapped to
/// one of the results that the mapping function admits for it.
pub open spec fn mapped_all<T, E, F: Fn(&Row) -> Result<T, E>>(
    f: F,
    rows: Seq<Row>,
    out: Seq<T>,
) -> bool {
    &&& out.len() == rows.len()
    &&& forall|i: int| 0 <= i < rows.len() ==> call_ensures(f, (&rows[i],), Ok(#[trigger] out[i]))
}

/// Holds when `e` is a mapping failure that the mapping function admits on
/// some row, every row before which it maps successfully.
pub open spec fn mapping_failed<T, E, F: Fn(&Row) -> Result<T, E>>(
    f: F,
    rows: Seq<Row>,
    e: E,
) -> bool {
    exists|i: int|
        {
            &&& 0 <= i < rows.len()
            &&& #[trigger] call_ensures(f, (&rows[i],), Err(e))
            &&& prefix_admits_ok(f, rows, i)
        }
}

/// Applies `f` to every row, in order, collecting the mapped values eagerly.
///
/// The first mapping failure aborts the whole operation: that error is
/// returned alone and the partially mapped prefix is discarded, so the
/// result is either every row mapped or no rows at all.
pub fn map_rows<T, E, F: Fn(&Row) -> Result<T, E>>(rows: &Vec<Row>, f: F) -> (r: Result<
    Vec<T>,
    E,
>)
    requires
        maps_any_row(f),
    ensures
        r matches Ok(out) ==> mapped_all(f, rows@, out@),
        r matches Err(e) ==> mapping_failed(f, rows@, e),
{
    let mut out: Vec<T> = Vec::new();
    let mut idx: usize = 0;
    while idx < rows.len()
        invariant
            maps_any_row(f),
            idx <= rows@.len(),
            out@.len() == idx as int,
            forall|i: int|
                0 <= i < idx ==> call_ensures(f, (&rows@[i],), Ok(#[trigger] out@[i])),
            prefix_admits_ok(f, rows@, idx as int),
        decreases rows@.len() - idx,
    {
        let row = &rows[idx];
        match f(row) {
            Ok(t) => {
                proof {
                    assert(call_ensures(f, (&rows@[idx as int],), Ok::<T, E>(t)));
                    assert(prefix_admits_ok(f, rows@, idx as int + 1));
                }
                out.push(t);
            },
            Err(e) => {
                proof {
                    assert(call_ensures(f, (&rows@[idx as int],), Err::<T, E>(e)));
                    assert(mapping_failed(f, rows@, e));
                }
                return Err(e);
            },
        }
        idx += 1;
    }
    Ok(out)
}

/// Law: a reported mapping failure is the first one. When `mapping_failed`
/// holds at some row index `i`, every row before `i` is one the mapping
/// function maps successfully; this lemma hands a caller that fact for any
/// such earlier row.
pub proof fn lemma_prefix_admits_ok_at<T, E, F: Fn(&Row) -> Result<T, E>>(
    f: F,
    rows: Seq<Row>,
    i: int,
    j: int,
)
    requires
        prefix_admits_ok(f, rows, i),
        0 <= j < i,
    ensures
        exists|t: T| #[trigger] call_ensures(f, (&rows[j],), Ok(t)),
    decreases i,
{
    if j < i - 1 {
        lemma_prefix_admits_ok_at(f, rows, i - 1, j);
    }
}

} // verus!
