//! The trusted boundary to the embedded SQL store.
//!
//! Every call into rusqlite stands here, behind a small wrapper whose
//! contract Verus believes; everything around these wrappers is verified.

use crate::rows::{ColumnValue, Row};
use vstd::prelude::*;

verus! {

#[verifier::external_type_specification]
#[verifier::external_body]
pub struct ExConnection(rusqlite::Connection);

#[verifier::external_type_specification]
#[verifier::external_body]
pub struct ExSqlValue(rusqlite::types::Value);

/// Relies on rusqlite's Connection::open: opens the database file at `path`,
/// creating the file if it is missing, and hands back the sole handle to it;
/// any failure to open comes back as the store's own error.
#[verifier::external_body]
pub(crate) fn open_connection(path: &str) -> (r: Result<
    rusqlite::Connection,
    rusqlite::Error,
>) {
    rusqlite::Connection::open(path)
}

/// Relies on rusqlite's Connection::execute: runs `sql` once with the
/// positional parameters bound in order and reports how many rows were
/// changed; any store-level failure comes back as the store's own error.
#[verifier::external_body]
pub(crate) fn exec_sql(conn: &rusqlite::Connection, sql: &str, params: &Vec<String>) -> (r: Result<
    usize,
    rusqlite::Error,
>) {
    conn.execute(sql, rusqlite::params_from_iter(params.iter()))
}

/// Relies on rusqlite's Connection::prepare, Statement::query_map and
/// Row::get: prepares `sql`, binds the positional parameters in order, and
/// yields each result row's columns as owned dynamic values, rows in the
/// store's own order; the first store-level failure aborts the whole read
/// and comes back as the store's own error.
#[verifier::external_body]
pub(crate) fn query_sql(conn: &rusqlite::Connection, sql: &str, params: &Vec<String>) -> (r: Result<
    Vec<Vec<rusqlite::types::Value>>,
    rusqlite::Error,
>) {
    let mut stmt = conn.prepare(sql)?;
    let width = stmt.column_count();
    let mapped = stmt.query_map(rusqlite::params_from_iter(params.iter()), |row| {
        let mut columns = Vec::with_capacity(width);
        for i in 0..width {
            columns.push(row.get(i)?);
        }
        Ok(columns)
    })?;
    mapped.collect()
}

/// Turns one raw row of the store's dynamic values into an owned row: one
/// column value per raw column, in column order.
pub(crate) fn row_from_sql(columns: &Vec<rusqlite::types::Value>) -> (r: Row)
    ensures
        r.values@.len() == columns@.len(),
{
    let mut values: Vec<ColumnValue> = Vec::new();
    let mut i: usize = 0;
    while i < columns.len()
        invariant
            i <= columns@.len(),
            values@.len() == i as int,
        decreases columns@.len() - i,
    {
        values.push(value_from_sql(&columns[i]));
        i += 1;
    }
    Row { values }
}

/// Turns every raw row into an owned row: one row per raw row, in the
/// store's row order, each with one column value per raw column.
pub(crate) fn rows_from_sql(raw: &Vec<Vec<rusqlite::types::Value>>) -> (r: Vec<Row>)
    ensures
        r@.len() == raw@.len(),
        forall|i: int| 0 <= i < raw@.len() ==> #[trigger] r@[i].values@.len() == raw@[i]@.len(),
{
    let mut rows: Vec<Row> = Vec::new();
    let mut i: usize = 0;
    while i < raw.len()
        invariant
            i <= raw@.len(),
            rows@.len() == i as int,
            forall|j: int| 0 <= j < i ==> #[trigger] rows@[j].values@.len() == raw@[j]@.len(),
        decreases raw@.len() - i,
    {
        let row = row_from_sql(&raw[i]);
        rows.push(row);
        i += 1;
    }
    rows
}

/// Relies on rusqlite's types::Value: tells its five variants apart, one arm
/// each, copying the payload out into the library's own column value; a
/// floating-point column keeps its exact bit pattern.
#[verifier::external_body]
pub(crate) fn value_from_sql(v: &rusqlite::types::Value) -> (r: ColumnValue) {
    match v {
        rusqlite::types::Value::Null => ColumnValue::Null,
        rusqlite::types::Value::Integer(i) => ColumnValue::Integer(*i),
        rusqlite::types::Value::Real(x) => ColumnValue::RealBits(x.to_bits()),
        rusqlite::types::Value::Text(s) => ColumnValue::Text(s.clone()),
        rusqlite::types::Value::Blob(b) => ColumnValue::Blob(b.clone()),
    }
}

} // verus!
