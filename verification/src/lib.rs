//! A serialized access layer over an embedded SQL store.
//!
//! The library owns the single open connection, applies every statement one
//! at a time, and exposes two request kinds: `Execute`, a write statement
//! returning the number of affected rows, and `Query`, a parameterized read
//! carrying a caller-chosen row-mapping function whose results are collected
//! eagerly, in the store's row order, stopping at the first mapping failure.

pub mod database;
pub mod error;
pub mod messages;
pub mod rows;
pub mod sqlite;

