use aslet::engine::{read_cells, read_row};
use aslet::error::InternalError;
use aslet::types::{Columns, DataRow, HostValue, Real, Rows, Value};
use rusqlite::types::ValueRef;

fn number(x: f64) -> Real {
    Real::from_engine(ValueRef::Real(x)).expect("a real")
}

#[test]
fn real_accepts_only_reals() {
    assert!(Real::from_engine(ValueRef::Real(2.5)).is_some());
    assert!(Real::from_engine(ValueRef::Integer(2)).is_none());
    assert!(Real::from_engine(ValueRef::Null).is_none());
    assert!(Real::from_engine(ValueRef::Text(b"2.5")).is_none());
    assert!(Real::from_engine(ValueRef::Blob(b"2.5")).is_none());
}

#[test]
fn real_keeps_its_value() {
    assert_eq!(number(2.5).to_engine(), ValueRef::Real(2.5));
    assert_eq!(number(-0.125).to_engine(), ValueRef::Real(-0.125));
    assert_ne!(number(2.5).to_engine(), ValueRef::Real(2.25));
    assert_eq!(number(1.0), number(1.0));
    assert_ne!(number(1.0), number(2.0));
}

#[test]
fn value_reads_each_kind_of_engine_value() {
    assert_eq!(Value::from_engine(ValueRef::Null), Value::Null);
    assert_eq!(Value::from_engine(ValueRef::Integer(-7)), Value::Int(-7));
    assert_eq!(Value::from_engine(ValueRef::Real(0.5)), Value::Number(number(0.5)));
    assert_eq!(
        Value::from_engine(ValueRef::Text(b"hello")),
        Value::String("hello".to_string())
    );
    assert_eq!(
        Value::from_engine(ValueRef::Blob(&[0, 255, 7])),
        Value::Blob(vec![0, 255, 7])
    );
}

#[test]
fn value_repairs_text_that_is_not_utf8() {
    assert_eq!(
        Value::from_engine(ValueRef::Text(&[b'a', 0xff, b'b'])),
        Value::String("a\u{fffd}b".to_string())
    );
}

#[test]
fn row_keeps_values_in_column_order() {
    let row = DataRow::new(vec![Value::Int(1), Value::Null, Value::String("x".to_string())]);
    assert_eq!(row.len(), 3);
    assert_eq!(row.get(0), Some(&Value::Int(1)));
    assert_eq!(row.get(1), Some(&Value::Null));
    assert_eq!(row.get(2), Some(&Value::String("x".to_string())));
    assert_eq!(row.get(3), None);
    assert_eq!(
        row.as_ref(),
        &vec![Value::Int(1), Value::Null, Value::String("x".to_string())]
    );
    assert_eq!(
        row.into_values(),
        vec![Value::Int(1), Value::Null, Value::String("x".to_string())]
    );
}

#[test]
fn row_from_vec_is_the_same_row() {
    let a = DataRow::from(vec![Value::Int(3), Value::Blob(vec![1])]);
    let b = DataRow::new(vec![Value::Int(3), Value::Blob(vec![1])]);
    assert_eq!(a, b);
    let empty = DataRow::from(Vec::new());
    assert_eq!(empty.len(), 0);
    assert_eq!(empty.get(0), None);
}

#[test]
fn rows_keep_result_set_order() {
    let rows = Rows::from(vec![
        DataRow::new(vec![Value::Int(1)]),
        DataRow::new(vec![Value::Int(2)]),
        DataRow::new(vec![Value::Int(3)]),
    ]);
    assert_eq!(rows.len(), 3);
    assert_eq!(rows.get(0), Some(&DataRow::new(vec![Value::Int(1)])));
    assert_eq!(rows.get(2), Some(&DataRow::new(vec![Value::Int(3)])));
    assert_eq!(rows.get(3), None);
    assert_eq!(rows.as_ref().len(), 3);
    assert_eq!(rows, Rows::new(vec![
        DataRow::new(vec![Value::Int(1)]),
        DataRow::new(vec![Value::Int(2)]),
        DataRow::new(vec![Value::Int(3)]),
    ]));
}

#[test]
fn columns_keep_their_order() {
    let columns = Columns::from(vec!["id".to_string(), "name".to_string()]);
    assert_eq!(columns.len(), 2);
    assert_eq!(columns.as_ref(), &vec!["id".to_string(), "name".to_string()]);
    assert_eq!(columns, Columns::new(vec!["id".to_string(), "name".to_string()]));
    assert_ne!(columns, Columns::new(vec!["name".to_string(), "id".to_string()]));
}

#[test]
fn engine_rows_are_read_column_by_column() {
    let conn = rusqlite::Connection::open_in_memory().expect("opens");
    let row = conn
        .query_row("select 7, 'x', null, x'0102', 1.5", [], |row| read_row(row))
        .expect("the row is read");
    assert_eq!(
        row,
        DataRow::new(vec![
            Value::Int(7),
            Value::String("x".to_string()),
            Value::Null,
            Value::Blob(vec![1, 2]),
            Value::Number(number(1.5)),
        ])
    );
    let cells = conn
        .query_row("select 'only'", [], |row| read_cells(row))
        .expect("the row is read");
    assert_eq!(cells, vec![Value::String("only".to_string())]);
    let cells = conn
        .query_row("select 3, 2, 1", [], |row| read_cells(row))
        .expect("the row is read");
    assert_eq!(cells, vec![Value::Int(3), Value::Int(2), Value::Int(1)]);
}

#[test]
fn host_values_become_a_row_in_order() {
    let row = DataRow::from_host(vec![
        HostValue::Int(3),
        HostValue::Number(number(0.5)),
        HostValue::Text("t".to_string()),
        HostValue::Bytes(vec![9, 8]),
        HostValue::Nil,
    ])
    .expect("every kind is supported");
    assert_eq!(
        row,
        DataRow::new(vec![
            Value::Int(3),
            Value::Number(number(0.5)),
            Value::String("t".to_string()),
            Value::Blob(vec![9, 8]),
            Value::Null,
        ])
    );
    assert_eq!(DataRow::from_host(Vec::new()), Ok(DataRow::new(Vec::new())));
}

#[test]
fn a_host_value_of_an_unsupported_kind_is_refused() {
    assert_eq!(DataRow::from_host(vec![HostValue::Other]), Err(InternalError::UnsupportedValue));
    assert_eq!(
        DataRow::from_host(vec![HostValue::Int(1), HostValue::Other, HostValue::Nil]),
        Err(InternalError::UnsupportedValue)
    );
    assert_eq!(
        DataRow::from_host(vec![HostValue::Nil, HostValue::Int(1), HostValue::Other]),
        Err(InternalError::UnsupportedValue)
    );
}
