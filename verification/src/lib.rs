//! A small typed-SQL execution core.
//!
//! A [`RawQuery`] pairs literal SQL text with a wire-type tag for its single
//! result column. Loading it sends the text over a [`Connection`] and decodes
//! the first cell of every returned row into the native type the caller asked
//! for, in row order, stopping at the first cell that cannot be decoded.

pub mod binding;
pub mod cell;
pub mod connection;
pub mod error;
pub mod query;
pub mod sqlite;

pub use crate::binding::{FromWire, Integer, Text, WireTag};
pub use crate::cell::{CellValue, RawCell, RawRow};
pub use crate::connection::{Connection, Script, ScriptedConnection};
pub use crate::error::{ConnectionError, DecodeError, LoadError};
pub use crate::query::{decode_response, decode_rows, first_of_response, first_value, RawQuery};
pub use crate::sqlite::{get_sqlite_version, get_sqlite_version_number};
