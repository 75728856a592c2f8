use typed_query::{
    decode_response, decode_rows, first_of_response, first_value, Connection, ConnectionError,
    DecodeError, Integer, LoadError, RawCell, RawQuery, RawRow, ScriptedConnection, Text,
};

fn int_row(n: i64) -> RawRow {
    RawRow::new(vec![RawCell::Integer(n)])
}

fn text_row(s: &str) -> RawRow {
    RawRow::new(vec![RawCell::Text(String::from(s))])
}

fn null_row() -> RawRow {
    RawRow::new(vec![RawCell::Null])
}

#[test]
fn select_42_loads_one_u32() {
    let mut conn = ScriptedConnection::new(vec![Ok(vec![int_row(42)])]);
    let out = RawQuery::new("SELECT 42", Integer).load::<u32, _>(&mut conn);
    assert_eq!(out, Ok(vec![42u32]));
    assert_eq!(conn.sent(), &vec![String::from("SELECT 42")]);
    assert_eq!(conn.remaining(), 0);
}

#[test]
fn select_abc_loads_one_string() {
    let mut conn = ScriptedConnection::new(vec![Ok(vec![text_row("abc")])]);
    let out = RawQuery::new("SELECT 'abc'", Text).load::<String, _>(&mut conn);
    assert_eq!(out, Ok(vec![String::from("abc")]));
    assert_eq!(conn.sent(), &vec![String::from("SELECT 'abc'")]);
}

#[test]
fn invalid_sql_is_a_connection_error() {
    let mut conn = ScriptedConnection::new(vec![Err(ConnectionError::Syntax)]);
    let out = RawQuery::new("SELEKT 42 FRM", Integer).load::<u32, _>(&mut conn);
    assert_eq!(out, Err(LoadError::Connection(ConnectionError::Syntax)));
}

#[test]
fn every_connection_error_is_passed_on() {
    let mut conn = ScriptedConnection::new(vec![
        Err(ConnectionError::Protocol),
        Err(ConnectionError::Unavailable),
    ]);
    let first = RawQuery::new("SELECT 1", Integer).load::<i64, _>(&mut conn);
    assert_eq!(first, Err(LoadError::Connection(ConnectionError::Protocol)));
    let second = RawQuery::new("SELECT 1", Integer).load::<i64, _>(&mut conn);
    assert_eq!(second, Err(LoadError::Connection(ConnectionError::Unavailable)));
}

#[test]
fn rows_come_back_in_the_order_received() {
    let rows = vec![int_row(3), int_row(1), int_row(2), int_row(1)];
    let mut conn = ScriptedConnection::new(vec![Ok(rows)]);
    let out = RawQuery::new("SELECT n FROM t", Integer).load::<i32, _>(&mut conn);
    assert_eq!(out, Ok(vec![3, 1, 2, 1]));
}

#[test]
fn zero_rows_load_to_an_empty_vector() {
    let mut conn = ScriptedConnection::new(vec![Ok(vec![])]);
    let out = RawQuery::new("SELECT n FROM t WHERE 0", Integer).load::<u32, _>(&mut conn);
    assert_eq!(out, Ok(vec![]));
}

#[test]
fn zero_rows_are_an_error_only_for_the_first_value() {
    let mut conn = ScriptedConnection::new(vec![Ok(vec![])]);
    let out = RawQuery::new("SELECT n FROM t WHERE 0", Integer).load_first::<u32, _>(&mut conn);
    assert_eq!(out, Err(LoadError::EmptyResult));
    assert_eq!(first_value::<u32>(vec![]), Err(LoadError::EmptyResult));
    assert_eq!(first_of_response::<Text, String>(Ok(vec![])), Err(LoadError::EmptyResult));
}

#[test]
fn first_value_is_the_first_row() {
    assert_eq!(first_value(vec![5u32, 6, 7]), Ok(5u32));
    assert_eq!(first_of_response::<Integer, u32>(Ok(vec![int_row(9), int_row(8)])), Ok(9u32));
    let mut conn = ScriptedConnection::new(vec![Ok(vec![text_row("a"), text_row("b")])]);
    let out = RawQuery::new("SELECT s FROM t", Text).load_first::<String, _>(&mut conn);
    assert_eq!(out, Ok(String::from("a")));
}

#[test]
fn first_value_still_fails_on_a_later_bad_row() {
    let out = first_of_response::<Integer, u32>(Ok(vec![int_row(9), null_row()]));
    assert_eq!(out, Err(LoadError::Decode(DecodeError::UnexpectedNull)));
}

#[test]
fn null_row_fails_the_load_with_no_partial_result() {
    let rows = vec![int_row(1), null_row(), int_row(3)];
    let mut conn = ScriptedConnection::new(vec![Ok(rows)]);
    let out = RawQuery::new("SELECT n FROM t", Integer).load::<u32, _>(&mut conn);
    assert_eq!(out, Err(LoadError::Decode(DecodeError::UnexpectedNull)));
}

#[test]
fn the_first_failing_row_decides_the_error() {
    let rows = vec![int_row(1), int_row(1 << 40), null_row(), text_row("x")];
    assert_eq!(decode_rows::<Integer, u32>(&rows), Err(DecodeError::OutOfRange));
    let rows = vec![text_row("x"), null_row(), int_row(1 << 40)];
    assert_eq!(decode_rows::<Integer, u32>(&rows), Err(DecodeError::MalformedValue));
    let rows = vec![null_row(), int_row(1 << 40)];
    assert_eq!(decode_rows::<Integer, u32>(&rows), Err(DecodeError::UnexpectedNull));
}

#[test]
fn nullable_load_keeps_absent_values_in_place() {
    let rows = vec![int_row(1), null_row(), int_row(3)];
    let out = decode_rows::<Integer, Option<u32>>(&rows);
    assert_eq!(out, Ok(vec![Some(1), None, Some(3)]));
}

#[test]
fn only_the_first_column_is_decoded() {
    let row = RawRow::new(vec![
        RawCell::Integer(5),
        RawCell::Null,
        RawCell::Text(String::from("ignored")),
    ]);
    assert_eq!(row.len(), 3);
    assert_eq!(row.first(), Some(&RawCell::Integer(5)));
    assert_eq!(decode_rows::<Integer, u32>(&vec![row]), Ok(vec![5u32]));
}

#[test]
fn a_row_without_cells_is_malformed() {
    let row = RawRow::new(vec![]);
    assert_eq!(row.len(), 0);
    assert_eq!(row.first(), None);
    assert_eq!(decode_rows::<Integer, u32>(&vec![int_row(1), row]), Err(DecodeError::MalformedValue));
}

#[test]
fn decode_response_maps_both_kinds_of_failure() {
    assert_eq!(
        decode_response::<Integer, u32>(Err(ConnectionError::Unavailable)),
        Err(LoadError::Connection(ConnectionError::Unavailable))
    );
    assert_eq!(
        decode_response::<Integer, u32>(Ok(vec![int_row(-1)])),
        Err(LoadError::Decode(DecodeError::OutOfRange))
    );
    assert_eq!(decode_response::<Text, String>(Ok(vec![text_row("a")])), Ok(vec![String::from("a")]));
}

#[test]
fn decoding_the_same_rows_twice_gives_the_same_values() {
    let rows = vec![int_row(10), int_row(20)];
    let first = decode_rows::<Integer, i64>(&rows);
    let second = decode_rows::<Integer, i64>(&rows);
    assert_eq!(first, second);
    assert_eq!(first, Ok(vec![10i64, 20]));
}

#[test]
fn loading_again_executes_again() {
    let mut conn = ScriptedConnection::new(vec![Ok(vec![int_row(1)]), Ok(vec![int_row(2)])]);
    let first = RawQuery::new("SELECT n FROM t", Integer).load::<u32, _>(&mut conn);
    let second = RawQuery::new("SELECT n FROM t", Integer).load::<u32, _>(&mut conn);
    assert_eq!(first, Ok(vec![1u32]));
    assert_eq!(second, Ok(vec![2u32]));
    assert_eq!(conn.sent().len(), 2);
}

#[test]
fn making_a_query_sends_nothing() {
    let conn = ScriptedConnection::new(vec![Ok(vec![int_row(1)])]);
    let query = RawQuery::new("this is not SQL", Text);
    assert_eq!(query.sql_text(), "this is not SQL");
    assert_eq!(query.result_tag(), &Text);
    assert_eq!(conn.sent().len(), 0);
    assert_eq!(conn.remaining(), 1);
}

#[test]
fn scripted_connection_replays_and_runs_dry() {
    let mut conn = ScriptedConnection::new(vec![Ok(vec![int_row(1)])]);
    assert!(!conn.is_closed());
    assert_eq!(conn.execute("SELECT 1"), Ok(vec![int_row(1)]));
    assert_eq!(conn.execute("SELECT 2"), Err(ConnectionError::Unavailable));
    assert_eq!(conn.sent(), &vec![String::from("SELECT 1")]);
}

#[test]
fn closed_connection_is_unavailable() {
    let mut conn = ScriptedConnection::new(vec![Ok(vec![int_row(1)])]);
    conn.close();
    assert!(conn.is_closed());
    let out = RawQuery::new("SELECT 1", Integer).load::<u32, _>(&mut conn);
    assert_eq!(out, Err(LoadError::Connection(ConnectionError::Unavailable)));
    assert_eq!(conn.remaining(), 1);
    assert_eq!(conn.sent().len(), 0);
}
