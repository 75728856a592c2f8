//! Raw queries and the pipeline that loads them.

use vstd::prelude::*;
use crate::binding::{non_nullable, FromWire, WireTag};
use crate::cell::{rows_view, CellValue, RawRow};
use crate::connection::{response_view, Connection, Response};
use crate::error::{ConnectionError, DecodeError, LoadError};

verus! {

/// The mathematical values of a sequence of native values, in order.
pub open spec fn values_of<T: DeepView>(values: Seq<T>) -> Seq<T::V> {
    Seq::new(values.len(), |i: int| values[i].deep_view())
}

/// What one row decodes to: its first cell under the binding; a row without
/// cells is malformed.
pub open spec fn decode_row<Tag: WireTag, T: FromWire<Tag>>(row: Seq<CellValue>) -> Result<
    T::V,
    DecodeError,
> {
    if row.len() == 0 {
        Err(DecodeError::MalformedValue)
    } else {
        T::decode_spec(row[0])
    }
}

/// Every row decodes, and `values` holds what they decode to, row by row.
pub open spec fn decodes_to<Tag: WireTag, T: FromWire<Tag>>(
    rows: Seq<Seq<CellValue>>,
    values: Seq<T::V>,
) -> bool {
    &&& values.len() == rows.len()
    &&& forall|i: int|
        0 <= i < rows.len() ==> #[trigger] decode_row::<Tag, T>(rows[i]) == Ok::<T::V, DecodeError>(
            values[i],
        )
}

/// Row `i` is the first that does not decode, and it fails with `e`.
pub open spec fn fails_first_at<Tag: WireTag, T: FromWire<Tag>>(
    rows: Seq<Seq<CellValue>>,
    i: int,
    e: DecodeError,
) -> bool {
    &&& 0 <= i < rows.len()
    &&& decode_row::<Tag, T>(rows[i]) == Err::<T::V, DecodeError>(e)
    &&& forall|j: int| 0 <= j < i ==> (#[trigger] decode_row::<Tag, T>(rows[j])) is Ok
}

/// What decoding a whole response gives: all values in row order, or the error
/// of the first row that fails.
pub open spec fn rows_decoded<Tag: WireTag, T: FromWire<Tag>>(
    rows: Seq<Seq<CellValue>>,
    out: Result<Seq<T::V>, DecodeError>,
) -> bool {
    match out {
        Ok(values) => decodes_to::<Tag, T>(rows, values),
        Err(e) => exists|i: int| #[trigger] fails_first_at::<Tag, T>(rows, i, e),
    }
}

/// What loading gives for an answer of the executor: its error passed on, or
/// its rows decoded.
pub open spec fn loaded<Tag: WireTag, T: FromWire<Tag>>(
    response: Response,
    out: Result<Seq<T::V>, LoadError>,
) -> bool {
    match response {
        Err(e) => out == Err::<Seq<T::V>, LoadError>(LoadError::Connection(e)),
        Ok(rows) => match out {
            Ok(values) => rows_decoded::<Tag, T>(rows, Ok(values)),
            Err(LoadError::Decode(e)) => rows_decoded::<Tag, T>(rows, Err(e)),
            Err(_) => false,
        },
    }
}

/// The mathematical value of a loaded result.
pub open spec fn result_view<T: DeepView, E>(out: Result<Vec<T>, E>) -> Result<Seq<T::V>, E> {
    match out {
        Ok(values) => Ok(values_of(values@)),
        Err(e) => Err(e),
    }
}

/// Decodes the first cell of every row, in order, and stops at the first row
/// that fails.
pub fn decode_rows<Tag: WireTag, T: FromWire<Tag>>(rows: &Vec<RawRow>) -> (out: Result<
    Vec<T>,
    DecodeError,
>)
    ensures
        rows_decoded::<Tag, T>(rows_view(rows@), result_view(out)),
{
    let mut values: Vec<T> = Vec::new();
    let mut i: usize = 0;
    while i < rows.len()
        invariant
            i <= rows.len(),
            values.len() == i,
            forall|j: int|
                0 <= j < i ==> #[trigger] decode_row::<Tag, T>(rows_view(rows@)[j]) == Ok::<
                    T::V,
                    DecodeError,
                >(values@[j].deep_view()),
        decreases rows.len() - i,
    {
        let decoded = match rows[i].first() {
            Some(cell) => T::decode(cell),
            None => Err(DecodeError::MalformedValue),
        };
        match decoded {
            Ok(value) => {
                values.push(value);
            },
            Err(e) => {
                assert(fails_first_at::<Tag, T>(rows_view(rows@), i as int, e));
                return Err(e);
            },
        }
        i = i + 1;
    }
    assert(decodes_to::<Tag, T>(rows_view(rows@), values_of(values@)));
    Ok(values)
}

/// Turns an answer of the executor into the loaded result: its error is passed
/// on, its rows are decoded.
pub fn decode_response<Tag: WireTag, T: FromWire<Tag>>(
    outcome: Result<Vec<RawRow>, ConnectionError>,
) -> (out: Result<Vec<T>, LoadError>)
    ensures
        loaded::<Tag, T>(response_view(outcome), result_view(out)),
{
    match outcome {
        Err(e) => Err(LoadError::Connection(e)),
        Ok(rows) => match decode_rows::<Tag, T>(&rows) {
            Ok(values) => Ok(values),
            Err(e) => Err(LoadError::Decode(e)),
        },
    }
}

/// The first of the loaded values, for callers that need at least one row.
pub fn first_value<T>(values: Vec<T>) -> (out: Result<T, LoadError>)
    ensures
        match out {
            Ok(value) => values@.len() > 0 && value == values@[0],
            Err(e) => values@.len() == 0 && e == LoadError::EmptyResult,
        },
{
    let mut values = values;
    if values.len() == 0 {
        Err(LoadError::EmptyResult)
    } else {
        Ok(values.swap_remove(0))
    }
}

/// Literal SQL text with the wire type of its single result column.
///
/// Making one touches no database and does not look at the text.
pub struct RawQuery<Tag> {
    sql_text: String,
    result_tag: Tag,
}

impl<Tag> View for RawQuery<Tag> {
    type V = Seq<char>;

    closed spec fn view(&self) -> Seq<char> {
        self.sql_text@
    }
}

impl<Tag: WireTag> RawQuery<Tag> {
    /// The tag the query was made with.
    pub closed spec fn tag(&self) -> Tag {
        self.result_tag
    }

    /// A query with the given text, whose result column is of wire type `Tag`.
    pub fn new(sql_text: &str, result_tag: Tag) -> (query: RawQuery<Tag>)
        ensures
            query@ == sql_text@,
            query.tag() == result_tag,
    {
        RawQuery { sql_text: sql_text.to_owned(), result_tag }
    }

    /// The text of the query.
    pub fn sql_text(&self) -> (text: &str)
        ensures
            text@ == self@,
    {
        self.sql_text.as_str()
    }

    /// The declared wire type of the result column.
    pub fn result_tag(&self) -> (tag: &Tag)
        ensures
            *tag == self.tag(),
    {
        &self.result_tag
    }

    /// Executes the query once and decodes the first cell of every returned
    /// row into `T`, in row order.
    ///
    /// The connection is sent exactly the query's text. An error of the
    /// connection is passed on and nothing is decoded; the first row that does
    /// not decode ends the load with its error; zero rows give an empty vector.
    pub fn load<T: FromWire<Tag>, C: Connection>(self, conn: &mut C) -> (out: Result<
        Vec<T>,
        LoadError,
    >)
        ensures
            exists|response: Response|
                old(conn).answers(self@, *final(conn), response) && #[trigger] loaded::<Tag, T>(
                    response,
                    result_view(out),
                ),
    {
        let outcome = conn.execute(self.sql_text.as_str());
        decode_response::<Tag, T>(outcome)
    }

    /// Loads the query and returns the value of the first row; no row at all
    /// is `LoadError::EmptyResult`.
    pub fn load_first<T: FromWire<Tag>, C: Connection>(self, conn: &mut C) -> (out: Result<
        T,
        LoadError,
    >)
        ensures
            exists|response: Response|
                old(conn).answers(self@, *final(conn), response) && #[trigger] first_loaded::<
                    Tag,
                    T,
                >(response, first_view(out)),
    {
        let outcome = conn.execute(self.sql_text.as_str());
        first_of_response::<Tag, T>(outcome)
    }
}

/// The mathematical value of a single loaded value.
pub open spec fn first_view<T: DeepView, E>(out: Result<T, E>) -> Result<T::V, E> {
    match out {
        Ok(value) => Ok(value.deep_view()),
        Err(e) => Err(e),
    }
}

/// What loading the first value gives for an answer of the executor.
pub open spec fn first_loaded<Tag: WireTag, T: FromWire<Tag>>(
    response: Response,
    out: Result<T::V, LoadError>,
) -> bool {
    match response {
        Err(e) => out == Err::<T::V, LoadError>(LoadError::Connection(e)),
        Ok(rows) => match out {
            Ok(value) => {
                &&& rows.len() > 0
                &&& forall|i: int|
                    0 <= i < rows.len() ==> (#[trigger] decode_row::<Tag, T>(rows[i])) is Ok
                &&& decode_row::<Tag, T>(rows[0]) == Ok::<T::V, DecodeError>(value)
            },
            Err(LoadError::Decode(e)) => rows_decoded::<Tag, T>(rows, Err(e)),
            Err(LoadError::EmptyResult) => rows.len() == 0,
            Err(LoadError::Connection(_)) => false,
        },
    }
}

/// Turns an answer of the executor into the value of its first row.
pub fn first_of_response<Tag: WireTag, T: FromWire<Tag>>(
    outcome: Result<Vec<RawRow>, ConnectionError>,
) -> (out: Result<T, LoadError>)
    ensures
        first_loaded::<Tag, T>(response_view(outcome), first_view(out)),
{
    match decode_response::<Tag, T>(outcome) {
        Err(e) => Err(e),
        Ok(values) => {
            assert(decodes_to::<Tag, T>(rows_view(outcome->Ok_0@), values_of(values@)));
            first_value(values)
        },
    }
}

/// Two results of decoding the same rows are the same: all the values in row
/// order, or the error of the first row that fails.
pub proof fn lemma_rows_decoded_once<Tag: WireTag, T: FromWire<Tag>>(
    rows: Seq<Seq<CellValue>>,
    first: Result<Seq<T::V>, DecodeError>,
    second: Result<Seq<T::V>, DecodeError>,
)
    requires
        rows_decoded::<Tag, T>(rows, first),
        rows_decoded::<Tag, T>(rows, second),
    ensures
        first == second,
{
    match (first, second) {
        (Ok(a), Ok(b)) => {
            assert forall|i: int| 0 <= i < a.len() implies a[i] == b[i] by {
                assert(decode_row::<Tag, T>(rows[i]) == Ok::<T::V, DecodeError>(a[i]));
                assert(decode_row::<Tag, T>(rows[i]) == Ok::<T::V, DecodeError>(b[i]));
            }
            assert(a =~= b);
        },
        (Ok(a), Err(e)) => {
            let i = choose|i: int| #[trigger] fails_first_at::<Tag, T>(rows, i, e);
            assert(decode_row::<Tag, T>(rows[i]) == Ok::<T::V, DecodeError>(a[i]));
        },
        (Err(e), Ok(b)) => {
            let i = choose|i: int| #[trigger] fails_first_at::<Tag, T>(rows, i, e);
            assert(decode_row::<Tag, T>(rows[i]) == Ok::<T::V, DecodeError>(b[i]));
        },
        (Err(d), Err(e)) => {
            let i = choose|i: int| #[trigger] fails_first_at::<Tag, T>(rows, i, d);
            let j = choose|j: int| #[trigger] fails_first_at::<Tag, T>(rows, j, e);
            if i < j {
                assert(decode_row::<Tag, T>(rows[i]) is Ok);
            } else if j < i {
                assert(decode_row::<Tag, T>(rows[j]) is Ok);
            }
        },
    }
}

/// Loading is repeatable as far as decoding goes: the same answer of the
/// executor always loads to the same result.
pub proof fn lemma_loaded_once<Tag: WireTag, T: FromWire<Tag>>(
    response: Response,
    first: Result<Seq<T::V>, LoadError>,
    second: Result<Seq<T::V>, LoadError>,
)
    requires
        loaded::<Tag, T>(response, first),
        loaded::<Tag, T>(response, second),
    ensures
        first == second,
{
    if let Ok(rows) = response {
        let a: Result<Seq<T::V>, DecodeError> = match first {
            Ok(values) => Ok(values),
            Err(LoadError::Decode(e)) => Err(e),
            Err(_) => arbitrary(),
        };
        let b: Result<Seq<T::V>, DecodeError> = match second {
            Ok(values) => Ok(values),
            Err(LoadError::Decode(e)) => Err(e),
            Err(_) => arbitrary(),
        };
        lemma_rows_decoded_once::<Tag, T>(rows, a, b);
    }
}

/// Where every row decodes, loading succeeds with as many values as there are
/// rows, and the value at each place is what the row at that place decodes to.
pub proof fn lemma_load_keeps_rows_in_order<Tag: WireTag, T: FromWire<Tag>>(
    rows: Seq<Seq<CellValue>>,
    out: Result<Seq<T::V>, LoadError>,
)
    requires
        forall|i: int| 0 <= i < rows.len() ==> (#[trigger] decode_row::<Tag, T>(rows[i])) is Ok,
        loaded::<Tag, T>(Ok(rows), out),
    ensures
        out is Ok,
        out->Ok_0.len() == rows.len(),
        forall|i: int|
            0 <= i < rows.len() ==> #[trigger] decode_row::<Tag, T>(rows[i]) == Ok::<
                T::V,
                DecodeError,
            >(out->Ok_0[i]),
{
    if let Err(LoadError::Decode(e)) = out {
        let i = choose|i: int| #[trigger] fails_first_at::<Tag, T>(rows, i, e);
        assert(decode_row::<Tag, T>(rows[i]) is Ok);
    }
}

/// A null first cell under a non-nullable binding fails the load: no values
/// are returned, and where every earlier row decodes, the error is
/// `UnexpectedNull`.
pub proof fn lemma_null_fails_load<Tag: WireTag, T: FromWire<Tag>>(
    rows: Seq<Seq<CellValue>>,
    at: int,
    out: Result<Seq<T::V>, LoadError>,
)
    requires
        non_nullable::<Tag, T>(),
        0 <= at < rows.len(),
        rows[at].len() > 0,
        rows[at][0] is Null,
        loaded::<Tag, T>(Ok(rows), out),
    ensures
        out is Err,
        out->Err_0 is Decode,
        (forall|j: int| 0 <= j < at ==> (#[trigger] decode_row::<Tag, T>(rows[j])) is Ok) ==> out
            == Err::<Seq<T::V>, LoadError>(LoadError::Decode(DecodeError::UnexpectedNull)),
{
    assert(rows[at][0] == CellValue::Null);
    assert(decode_row::<Tag, T>(rows[at]) == Err::<T::V, DecodeError>(
        DecodeError::UnexpectedNull,
    ));
    match out {
        Ok(values) => {
            assert(decode_row::<Tag, T>(rows[at]) == Ok::<T::V, DecodeError>(values[at]));
        },
        Err(LoadError::Decode(e)) => {
            if forall|j: int| 0 <= j < at ==> (#[trigger] decode_row::<Tag, T>(rows[j])) is Ok {
                let i = choose|i: int| #[trigger] fails_first_at::<Tag, T>(rows, i, e);
                if i < at {
                    assert(decode_row::<Tag, T>(rows[i]) is Ok);
                } else if at < i {
                    assert(decode_row::<Tag, T>(rows[at]) is Ok);
                }
            }
        },
        Err(_) => {},
    }
}

/// Zero rows load to the empty sequence, and only a caller that asks for the
/// first value gets `EmptyResult`.
pub proof fn lemma_zero_rows<Tag: WireTag, T: FromWire<Tag>>(
    out: Result<Seq<T::V>, LoadError>,
    first: Result<T::V, LoadError>,
)
    requires
        loaded::<Tag, T>(Ok(Seq::empty()), out),
        first_loaded::<Tag, T>(Ok(Seq::empty()), first),
    ensures
        out == Ok::<Seq<T::V>, LoadError>(Seq::empty()),
        first == Err::<T::V, LoadError>(LoadError::EmptyResult),
{
    let rows = Seq::<Seq<CellValue>>::empty();
    match out {
        Ok(values) => {
            assert(values =~= Seq::<T::V>::empty());
        },
        Err(LoadError::Decode(e)) => {
            let i = choose|i: int| #[trigger] fails_first_at::<Tag, T>(rows, i, e);
        },
        Err(_) => {},
    }
    match first {
        Err(LoadError::Decode(e)) => {
            let i = choose|i: int| #[trigger] fails_first_at::<Tag, T>(rows, i, e);
        },
        _ => {},
    }
}

} // verus!
