use vstd::prelude::*;

use crate::durable::{backend_rows, no_backend_rows};
use crate::relaxed::{content_rows, kv_rows, no_content_rows, no_kv_rows};

verus! {

/// The embedded relational connection both stores are built on. A value is
/// opaque here; what a connection's tables hold is captured by the
/// uninterpreted row maps that the trusted operations below speak of.
///
/// The contracts over those maps assume the ownership model of this layer:
/// each store file is accessed through exactly one connection, owned
/// exclusively by this process, so nothing changes a table behind a
/// connection's back.
#[verifier::external_type_specification]
#[verifier::external_body]
pub struct ExConnection(rusqlite::Connection);

/// The error type the embedded relational store reports.
#[verifier::external_type_specification]
#[verifier::external_body]
pub struct ExSqliteError(rusqlite::Error);

/// Relies on rusqlite::Connection::open: opens (or creates) the database file
/// at the given path. Whatever rows the file already holds become the
/// connection's contents; each table holds finitely many rows.
#[verifier::external_body]
pub(crate) fn db_open(path: &str) -> (r: Result<rusqlite::Connection, rusqlite::Error>)
    ensures
        r matches Ok(conn) ==> {
            &&& backend_rows(conn).dom().finite()
            &&& content_rows(conn).dom().finite()
            &&& kv_rows(conn).dom().finite()
        },
{
    rusqlite::Connection::open(path)
}

/// Relies on rusqlite::Connection::open_in_memory: a fresh in-memory
/// database holds no rows in any table.
#[verifier::external_body]
pub(crate) fn db_open_in_memory() -> (r: Result<rusqlite::Connection, rusqlite::Error>)
    ensures
        r matches Ok(conn) ==> {
            &&& backend_rows(conn) == no_backend_rows()
            &&& content_rows(conn) == no_content_rows()
            &&& kv_rows(conn) == no_kv_rows()
        },
{
    rusqlite::Connection::open_in_memory()
}

/// Relies on rusqlite::Connection::pragma_update: issues a PRAGMA statement,
/// which configures the connection (journaling, synchronous mode) and never
/// adds, changes or removes table rows.
#[verifier::external_body]
pub(crate) fn db_pragma_update(
    conn: &mut rusqlite::Connection,
    name: &str,
    value: &str,
) -> (r: Result<(), rusqlite::Error>)
    ensures
        backend_rows(*final(conn)) == backend_rows(*old(conn)),
        content_rows(*final(conn)) == content_rows(*old(conn)),
        kv_rows(*final(conn)) == kv_rows(*old(conn)),
{
    conn.pragma_update(None, name, value)
}

} // verus!
