//! The two request kinds the database actor accepts.

use vstd::prelude::*;

verus! {

/// A write or DDL statement with positional string parameters, answered with
/// the number of affected rows. Immutable once constructed.
pub struct Execute {
    pub query: String,
    pub params: Vec<String>,
}

/// A read statement with positional string parameters and a caller-supplied
/// row-mapping function; the element type of the answer is chosen per call
/// site by the mapping function itself.
pub struct Query<F> {
    pub query: String,
    pub params: Vec<String>,
    pub map_result: F,
}

} // verus!
