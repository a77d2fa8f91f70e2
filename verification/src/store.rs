//! The term store, consumed as an abstract capability through the sqlite
//! crate: open a handle, prepare a query, bind parameters positionally,
//! step through the matching rows and read their fields.
//!
//! Every function here is a trusted wrapper around one outside call. What
//! a query returns depends on what is in the store, so the contracts state
//! only what holds of every outcome; the verified code around them takes
//! the results as arguments and does the rest.

use vstd::prelude::*;
use crate::error::Error;

verus! {

/// The sqlite crate's connection handle.
#[verifier::external_type_specification]
#[verifier::external_body]
pub struct ExConnection(sqlite::Connection);

/// The sqlite crate's prepared statement.
#[verifier::external_type_specification]
#[verifier::external_body]
pub struct ExStatement<'l>(sqlite::Statement<'l>);

/// One scalar field of a fetched row, as the store typed it. A
/// floating-point payload cannot be carried here and is dropped with its
/// variant kept; the engine treats every non-text field as malformed
/// anyway.
pub enum Cell {
    /// A text field.
    Text(String),
    /// An integer field.
    Integer(i64),
    /// A floating-point field; the payload is not carried.
    Real,
    /// A binary field.
    Blob(Vec<u8>),
    /// A null field.
    Null,
}

/// Relies on std's Path::exists: true iff the path denotes an existing
/// file-system entity. It only checks; it never creates anything.
#[verifier::external_body]
pub(crate) fn store_file_exists(path: &str) -> bool {
    std::path::Path::new(path).exists()
}

/// Relies on sqlite::open: opens a read-write connection to the database
/// at the path, or reports the store's failure. (sqlite::open would create
/// a missing database file; the engine rules that case out beforehand.)
#[verifier::external_body]
pub(crate) fn open_store(path: &str) -> (r: Result<sqlite::Connection, Error>)
    ensures
        r matches Err(e) ==> e is StoreError,
{
    match sqlite::open(path) {
        Ok(c) => Ok(c),
        Err(e) => Err(Error::StoreError(e.message.unwrap_or_default())),
    }
}

/// Relies on Connection::prepare: compiles the query text, as given, into
/// a statement against the connection, or reports the store's failure.
#[verifier::external_body]
pub(crate) fn prepare_statement<'l>(conn: &'l sqlite::Connection, sql: &str) -> (r: Result<
    sqlite::Statement<'l>,
    Error,
>)
    ensures
        r matches Err(e) ==> e is StoreError,
{
    match conn.prepare(sql) {
        Ok(s) => Ok(s),
        Err(e) => Err(Error::StoreError(e.message.unwrap_or_default())),
    }
}

/// Relies on Statement::bind with an (index, &str) pair: binds the text as
/// the statement's positional parameter at the 1-based index, or reports
/// the store's failure.
#[verifier::external_body]
pub(crate) fn bind_text<'l>(stmt: &mut sqlite::Statement<'l>, index: usize, text: &str) -> (r:
    Result<(), Error>)
    requires
        index >= 1,
    ensures
        r matches Err(e) ==> e is StoreError,
{
    match stmt.bind((index, text)) {
        Ok(()) => Ok(()),
        Err(e) => Err(Error::StoreError(e.message.unwrap_or_default())),
    }
}

/// The number of rows the statement has still to deliver. A query's
/// result set is finite — bounded by the dataset — and is consumed one
/// row per step, never restarted.
pub uninterp spec fn rows_remaining(stmt: sqlite::Statement) -> nat;

/// Relies on Statement::next: advances the statement one step; true means
/// a row is available for reading, false that the statement is exhausted.
/// Each step that delivers a row consumes it from the finite result set.
#[verifier::external_body]
pub(crate) fn step<'l>(stmt: &mut sqlite::Statement<'l>) -> (r: Result<bool, Error>)
    ensures
        r matches Err(e) ==> e is StoreError,
        r == Ok::<bool, Error>(true) ==> rows_remaining(*final(stmt)) < rows_remaining(*old(stmt)),
{
    match stmt.next() {
        Ok(sqlite::State::Row) => Ok(true),
        Ok(sqlite::State::Done) => Ok(false),
        Err(e) => Err(Error::StoreError(e.message.unwrap_or_default())),
    }
}

/// Relies on Statement::read with a 0-based column index, fetching one
/// field of the current row as a dynamically typed value; each variant is
/// carried over one to one (the floating-point payload excepted, which
/// the Cell cannot hold).
#[verifier::external_body]
pub(crate) fn read_cell<'l>(stmt: &sqlite::Statement<'l>, index: usize) -> (r: Result<Cell, Error>)
    ensures
        r matches Err(e) ==> e is StoreError,
{
    match stmt.read::<sqlite::Value, _>(index) {
        Ok(sqlite::Value::String(s)) => Ok(Cell::Text(s)),
        Ok(sqlite::Value::Integer(i)) => Ok(Cell::Integer(i)),
        Ok(sqlite::Value::Float(_)) => Ok(Cell::Real),
        Ok(sqlite::Value::Binary(b)) => Ok(Cell::Blob(b)),
        Ok(sqlite::Value::Null) => Ok(Cell::Null),
        Err(e) => Err(Error::StoreError(e.message.unwrap_or_default())),
    }
}

} // verus!
