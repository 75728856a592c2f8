//! The failures a typed query can end in.

use vstd::prelude::*;

verus! {

/// A failure reported by the executor of a query.
#[derive(Clone, Copy, Debug, PartialEq, Eq, Structural, Hash)]
pub enum ConnectionError {
    /// The database rejected the text as malformed SQL.
    Syntax,
    /// The session is closed or cannot be reached.
    Unavailable,
    /// The database answered with something that is not a well-formed response.
    Protocol,
}

/// A failure to turn one raw cell into a native value.
#[derive(Clone, Copy, Debug, PartialEq, Eq, Structural, Hash)]
pub enum DecodeError {
    /// The cell is null and the native type has no place for absence.
    UnexpectedNull,
    /// The cell holds an integer that the native type cannot represent.
    OutOfRange,
    /// The cell is missing or holds a value of another wire type.
    MalformedValue,
}

/// Everything that loading a query can fail with.
#[derive(Clone, Copy, Debug, PartialEq, Eq, Structural, Hash)]
pub enum LoadError {
    /// The executor failed; no row was decoded.
    Connection(ConnectionError),
    /// A row could not be decoded; it is the first such row.
    Decode(DecodeError),
    /// The caller asked for a row and the database returned none.
    EmptyResult,
}

} // verus!
