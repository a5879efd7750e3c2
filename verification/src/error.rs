//! The failure values a request can resolve to.

use vstd::prelude::*;

verus! {

#[verifier::external_type_specification]
#[verifier::external_body]
pub struct ExError(rusqlite::Error);

/// A failure reported back to the sender of a request.
///
/// A store-level failure and a row-mapping failure travel back over the same
/// channel: either way the request resolves to one `DbError` and no partial
/// result is kept.
#[derive(Debug)]
pub enum DbError {
    /// The store itself failed: opening it, preparing, binding or running a
    /// statement. The store's own report is preserved verbatim.
    Store(rusqlite::Error),
    /// The caller's row-mapping function rejected a row, with its reason.
    Mapping(String),
}

} // verus!
