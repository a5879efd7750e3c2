//! The database actor's state and its handling of the two request kinds.

use crate::error::DbError;
use crate::messages::{Execute, Query};
use crate::rows::{map_rows, mapped_all, mapping_failed, maps_any_row, Row};
use crate::sqlite::{exec_sql, open_connection, query_sql, rows_from_sql};
use vstd::prelude::*;

verus! {

/// The actor's state: the exclusive owner of the one open connection to the
/// store. Callers never touch the connection; they only send requests and
/// receive results.
pub struct Database {
    connection: rusqlite::Connection,
}

/// The on-disk file of the store under the directory `dir`: the directory
/// joined with the fixed file name.
pub fn database_path(dir: &str) -> (r: String)
    ensures
        r@ == dir@ + "/subilo-database.db"@,
{
    let mut path = dir.to_owned();
    path.append("/subilo-database.db");
    path
}

impl Database {
    /// Opens the store that lives under the directory `path`.
    ///
    /// The directory itself must already exist; the store file is created on
    /// first open. A failure to open aborts startup with the store's own
    /// error: no handle exists in a half-open state.
    pub fn new(path: &str) -> (r: Result<Database, DbError>)
        ensures
            r matches Err(e) ==> e is Store,
    {
        let file = database_path(path);
        match open_connection(file.as_str()) {
            Ok(connection) => Ok(Database { connection }),
            Err(e) => Err(DbError::Store(e)),
        }
    }

    /// The idempotent schema bootstrap, run once on actor startup: creates
    /// the job table only if it is absent, so running it against an already
    /// initialized store is a no-op, not an error.
    pub fn create_tables(&mut self) -> (r: Result<usize, DbError>)
        ensures
            *final(self) == *old(self),
            r matches Err(e) ==> e is Store,
    {
        let params: Vec<String> = Vec::new();
        let statement =
            "CREATE TABLE IF NOT EXISTS job (id TEXT PRIMARY KEY, name TEXT NOT NULL, status TEXT, started_at TEXT, ended_at TEXT, output TEXT)";
        match exec_sql(&self.connection, statement, &params) {
            Ok(n) => Ok(n),
            Err(e) => Err(DbError::Store(e)),
        }
    }

    /// Handles an Execute request: runs its statement once with the
    /// positional parameters bound in order and answers with the number of
    /// affected rows.
    ///
    /// A store failure is returned to the sender as a store error, never a
    /// mapping error, and leaves the handle exactly as it was, ready for the
    /// next request.
    pub fn execute(&mut self, msg: Execute) -> (r: Result<usize, DbError>)
        ensures
            *final(self) == *old(self),
            r matches Err(e) ==> e is Store,
    {
        match exec_sql(&self.connection, msg.query.as_str(), &msg.params) {
            Ok(n) => Ok(n),
            Err(e) => Err(DbError::Store(e)),
        }
    }

    /// Handles a Query request: prepares and runs its statement, applies the
    /// mapping function to every produced row, in the store's own order, and
    /// answers with the fully collected sequence.
    ///
    /// On success the answer holds exactly one mapped value per produced
    /// row, in order. The first mapping failure aborts the whole request:
    /// the partially mapped prefix is discarded and that one error is the
    /// answer. Either way the handle is left exactly as it was.
    pub fn query<T, F: Fn(&Row) -> Result<T, DbError>>(&mut self, msg: Query<F>) -> (r: Result<
        Vec<T>,
        DbError,
    >)
        requires
            maps_any_row(msg.map_result),
        ensures
            *final(self) == *old(self),
            r matches Ok(out) ==> exists|rows: Seq<Row>|
                #[trigger] mapped_all(msg.map_result, rows, out@),
            r matches Err(e) ==> e is Store || exists|rows: Seq<Row>|
                #[trigger] mapping_failed(msg.map_result, rows, e),
    {
        match query_sql(&self.connection, msg.query.as_str(), &msg.params) {
            Ok(raw) => {
                let rows = rows_from_sql(&raw);
                map_rows(&rows, msg.map_result)
            },
            Err(e) => Err(DbError::Store(e)),
        }
    }
}

} // verus!
