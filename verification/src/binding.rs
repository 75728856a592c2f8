//! Wire-type tags and the rules that decode a raw cell into a native value.
//!
//! A binding is an impl of [`FromWire`] for one pair of tag and native type.
//! Which binding a query uses is settled when the program is built: asking for
//! a pair that has no impl does not compile.

use vstd::prelude::*;
use crate::cell::{CellValue, RawCell};
use crate::error::DecodeError;

verus! {

/// A marker for one database-level type.
pub trait WireTag {
    /// Whether a cell holds a value of this wire type.
    spec fn admits(cell: CellValue) -> bool;
}

/// The integer wire type.
#[derive(Clone, Copy, Debug, PartialEq, Eq)]
pub struct Integer;

/// The text wire type.
#[derive(Clone, Copy, Debug, PartialEq, Eq)]
pub struct Text;

impl WireTag for Integer {
    open spec fn admits(cell: CellValue) -> bool {
        cell is Integer
    }
}

impl WireTag for Text {
    open spec fn admits(cell: CellValue) -> bool {
        cell is Text
    }
}

/// The mathematical value of a decoding outcome.
pub open spec fn outcome_value<T: DeepView>(out: Result<T, DecodeError>) -> Result<T::V, DecodeError> {
    match out {
        Ok(value) => Ok(value.deep_view()),
        Err(e) => Err(e),
    }
}

/// The rule that reads one cell of wire type `Tag` into `Self`.
pub trait FromWire<Tag: WireTag>: Sized + DeepView {
    /// What a cell decodes to under this binding.
    spec fn decode_spec(cell: CellValue) -> Result<<Self as DeepView>::V, DecodeError>;

    /// Decodes one cell.
    fn decode(cell: &RawCell) -> (out: Result<Self, DecodeError>)
        ensures
            outcome_value(out) == Self::decode_spec(cell@),
    ;
}

/// A binding is non-nullable when it has no native value for the null marker.
pub open spec fn non_nullable<Tag: WireTag, T: FromWire<Tag>>() -> bool {
    T::decode_spec(CellValue::Null) == Err::<T::V, DecodeError>(DecodeError::UnexpectedNull)
}

/// What an integer binding with the native range `lo ..= hi` makes of a cell.
pub open spec fn integer_in_range(cell: CellValue, lo: int, hi: int) -> Result<int, DecodeError> {
    match cell {
        CellValue::Null => Err(DecodeError::UnexpectedNull),
        CellValue::Integer(n) => if lo <= n <= hi {
            Ok(n)
        } else {
            Err(DecodeError::OutOfRange)
        },
        CellValue::Text(_) => Err(DecodeError::MalformedValue),
    }
}

/// What the text binding makes of a cell.
pub open spec fn text_verbatim(cell: CellValue) -> Result<Seq<char>, DecodeError> {
    match cell {
        CellValue::Null => Err(DecodeError::UnexpectedNull),
        CellValue::Integer(_) => Err(DecodeError::MalformedValue),
        CellValue::Text(s) => Ok(s),
    }
}

/// Reads an integer cell and checks it against the native range `lo ..= hi`.
pub fn decode_integer(cell: &RawCell, lo: i64, hi: i64) -> (out: Result<i64, DecodeError>)
    ensures
        match out {
            Ok(n) => integer_in_range(cell@, lo as int, hi as int) == Ok::<int, DecodeError>(n as int),
            Err(e) => integer_in_range(cell@, lo as int, hi as int) == Err::<int, DecodeError>(e),
        },
{
    match cell {
        RawCell::Null => Err(DecodeError::UnexpectedNull),
        RawCell::Integer(n) => {
            if lo <= *n && *n <= hi {
                Ok(*n)
            } else {
                Err(DecodeError::OutOfRange)
            }
        },
        RawCell::Text(_) => Err(DecodeError::MalformedValue),
    }
}

impl FromWire<Integer> for i64 {
    open spec fn decode_spec(cell: CellValue) -> Result<i64, DecodeError> {
        match integer_in_range(cell, i64::MIN as int, i64::MAX as int) {
            Ok(n) => Ok(n as i64),
            Err(e) => Err(e),
        }
    }

    fn decode(cell: &RawCell) -> (out: Result<i64, DecodeError>) {
        decode_integer(cell, i64::MIN, i64::MAX)
    }
}

impl FromWire<Integer> for i32 {
    open spec fn decode_spec(cell: CellValue) -> Result<i32, DecodeError> {
        match integer_in_range(cell, i32::MIN as int, i32::MAX as int) {
            Ok(n) => Ok(n as i32),
            Err(e) => Err(e),
        }
    }

    fn decode(cell: &RawCell) -> (out: Result<i32, DecodeError>) {
        match decode_integer(cell, i32::MIN as i64, i32::MAX as i64) {
            Ok(n) => Ok(n as i32),
            Err(e) => Err(e),
        }
    }
}

impl FromWire<Integer> for u32 {
    open spec fn decode_spec(cell: CellValue) -> Result<u32, DecodeError> {
        match integer_in_range(cell, 0, u32::MAX as int) {
            Ok(n) => Ok(n as u32),
            Err(e) => Err(e),
        }
    }

    fn decode(cell: &RawCell) -> (out: Result<u32, DecodeError>) {
        match decode_integer(cell, 0, u32::MAX as i64) {
            Ok(n) => Ok(n as u32),
            Err(e) => Err(e),
        }
    }
}

impl FromWire<Text> for String {
    open spec fn decode_spec(cell: CellValue) -> Result<Seq<char>, DecodeError> {
        text_verbatim(cell)
    }

    fn decode(cell: &RawCell) -> (out: Result<String, DecodeError>) {
        match cell {
            RawCell::Null => Err(DecodeError::UnexpectedNull),
            RawCell::Integer(_) => Err(DecodeError::MalformedValue),
            RawCell::Text(s) => Ok(s.clone()),
        }
    }
}

/// The nullable wrapper: null is absence, anything else goes to the inner binding.
impl<Tag: WireTag, T: FromWire<Tag>> FromWire<Tag> for Option<T> {
    open spec fn decode_spec(cell: CellValue) -> Result<Option<T::V>, DecodeError> {
        match cell {
            CellValue::Null => Ok(None),
            _ => match T::decode_spec(cell) {
                Ok(value) => Ok(Some(value)),
                Err(e) => Err(e),
            },
        }
    }

    fn decode(cell: &RawCell) -> (out: Result<Option<T>, DecodeError>) {
        match cell {
            RawCell::Null => Ok(None),
            _ => match T::decode(cell) {
                Ok(value) => Ok(Some(value)),
                Err(e) => Err(e),
            },
        }
    }
}

/// Decoding is repeatable: two outcomes of decoding the same cell under the
/// same binding hold the same value, or the same error.
pub proof fn lemma_decode_repeatable<Tag: WireTag, T: FromWire<Tag>>(
    cell: RawCell,
    first: Result<T, DecodeError>,
    second: Result<T, DecodeError>,
)
    requires
        outcome_value(first) == T::decode_spec(cell@),
        outcome_value(second) == T::decode_spec(cell@),
    ensures
        outcome_value(first) == outcome_value(second),
{
}

/// The bindings of this module are tied to their tags: a cell of the tag's
/// wire type decodes unless its integer is outside the native range, and a
/// cell of another wire type is malformed.
pub proof fn lemma_bindings_follow_tags(cell: CellValue)
    ensures
        Integer::admits(cell) ==> (<i64 as FromWire<Integer>>::decode_spec(cell) is Ok
            <==> i64::MIN <= cell->Integer_0 <= i64::MAX),
        Integer::admits(cell) ==> (<i32 as FromWire<Integer>>::decode_spec(cell) is Ok
            <==> i32::MIN <= cell->Integer_0 <= i32::MAX),
        Integer::admits(cell) ==> (<u32 as FromWire<Integer>>::decode_spec(cell) is Ok
            <==> 0 <= cell->Integer_0 <= u32::MAX),
        Text::admits(cell) ==> <String as FromWire<Text>>::decode_spec(cell) == Ok::<
            Seq<char>,
            DecodeError,
        >(cell->Text_0),
        cell is Text ==> <i64 as FromWire<Integer>>::decode_spec(cell) == Err::<i64, DecodeError>(
            DecodeError::MalformedValue,
        ),
        cell is Integer ==> <String as FromWire<Text>>::decode_spec(cell) == Err::<
            Seq<char>,
            DecodeError,
        >(DecodeError::MalformedValue),
{
}

} // verus!
