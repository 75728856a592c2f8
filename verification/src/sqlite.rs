//! Two fixed queries for the version of the SQLite library behind a connection.

use vstd::prelude::*;
use crate::binding::{Integer, Text};
use crate::connection::{Connection, Response};
use crate::error::LoadError;
use crate::query::{first_loaded, first_view, RawQuery};

verus! {

/// The text of the query for the version as an integer.
pub open spec fn version_number_query() -> Seq<char> {
    "SELECT sqlite_version_number()"@
}

/// The text of the query for the version as a string.
pub open spec fn version_query() -> Seq<char> {
    "SELECT sqlite_version()"@
}

/// Returns the SQLite version as an integer; e.g., `3016002` for version
/// 3.16.2.
///
/// The connection is sent `SELECT sqlite_version_number()` once, and the first
/// row of its answer is read as an integer. A failure of the connection, a
/// row that is not an integer in the range of `u32`, or no row at all is
/// returned as the error.
pub fn get_sqlite_version_number<C: Connection>(conn: &mut C) -> (out: Result<u32, LoadError>)
    ensures
        exists|response: Response|
            old(conn).answers(version_number_query(), *final(conn), response)
                && #[trigger] first_loaded::<Integer, u32>(response, first_view(out)),
{
    let query = "SELECT sqlite_version_number()";
    RawQuery::new(query, Integer).load_first::<u32, C>(conn)
}

/// Returns the SQLite version as a string; e.g., `"3.16.2"` for version 3.16.2.
///
/// The connection is sent `SELECT sqlite_version()` once, and the first row of
/// its answer is read as text. A failure of the connection, a row that is not
/// text, or no row at all is returned as the error.
pub fn get_sqlite_version<C: Connection>(conn: &mut C) -> (out: Result<String, LoadError>)
    ensures
        exists|response: Response|
            old(conn).answers(version_query(), *final(conn), response) && #[trigger] first_loaded::<
                Text,
                String,
            >(response, first_view(out)),
{
    let query = "SELECT sqlite_version()";
    RawQuery::new(query, Text).load_first::<String, C>(conn)
}

} // verus!
