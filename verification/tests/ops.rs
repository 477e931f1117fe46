use aslet::error::{AsletError, EngineFault, InternalError};
use aslet::ops::{
    affected_count, batch_insert, batch_insert_reported, begin_statement, begin_transaction, close,
    commit, end_transaction, exec, fetch, get_conn, open, rollback, settle_batch, total_of,
    BatchReport, Ending,
};
use aslet::pool::ConnPool;
use aslet::transaction::{TransactionState, TxPhase};
use aslet::types::{Columns, Real, DataRow, Rows, Value};
use rusqlite::types::ValueRef;

fn text(s: &str) -> Value {
    Value::String(s.to_string())
}

fn number(x: f64) -> Value {
    Value::Number(Real::from_engine(ValueRef::Real(x)).expect("a real"))
}

fn none() -> DataRow {
    DataRow::new(Vec::new())
}

/// Reads the names of the columns of a query, as the driver of the library does.
fn names(pool: &ConnPool, id: usize, sql: &str) -> Result<Vec<String>, rusqlite::Error> {
    match pool.get(id) {
        Some(conn) => conn
            .prepare(sql)
            .map(|stmt| stmt.column_names().iter().map(|name| name.to_string()).collect()),
        None => Ok(Vec::new()),
    }
}

fn query(
    pool: &ConnPool,
    id: usize,
    params: DataRow,
    sql: String,
) -> Result<(Rows, Columns), AsletError> {
    let read = names(pool, id, &sql);
    fetch(pool, id, params, sql, read)
}

fn memory(pool: &mut ConnPool) -> usize {
    let (id, path) = open(pool, ":memory:".to_string()).expect("an in-memory database opens");
    assert_eq!(path, ":memory:");
    id
}

fn shared(pool: &mut ConnPool, name: &str) -> (usize, String) {
    let path = format!("file:{}?mode=memory&cache=shared", name);
    let (id, back) = open(pool, path.clone()).expect("a shared in-memory database opens");
    assert_eq!(back, path);
    (id, path)
}

fn run(pool: &ConnPool, id: usize, sql: &str) -> i64 {
    exec(pool, id, none(), sql.to_string()).expect("the statement runs")
}

fn count(pool: &ConnPool, id: usize, table: &str) -> i64 {
    let (rows, _) = query(pool, id, none(), format!("select count(*) from {}", table))
        .expect("the count runs");
    match rows.get(0).and_then(|row| row.get(0)) {
        Some(Value::Int(n)) => *n,
        other => panic!("not a count: {:?}", other),
    }
}

fn is_invalid_connection(e: &AsletError, id: usize) -> bool {
    matches!(e, AsletError::Internal(InternalError::InvalidConnection(x)) if *x == id)
}

#[test]
fn affected_count_keeps_small_counts() {
    assert_eq!(affected_count(0), 0);
    assert_eq!(affected_count(3), 3);
    assert_eq!(affected_count(1_000_000), 1_000_000);
}

#[test]
fn open_takes_a_connection_into_the_pool() {
    let mut pool = ConnPool::new();
    assert!(!pool.contains(0));
    let a = memory(&mut pool);
    let b = memory(&mut pool);
    assert_ne!(a, b);
    assert!(pool.contains(a));
    assert!(pool.contains(b));
    assert!(pool.get(a).is_some());
    assert!(get_conn(&pool, a).is_ok());
}

#[test]
fn open_on_a_path_that_cannot_exist_fails_and_keeps_the_pool() {
    let mut pool = ConnPool::new();
    let a = memory(&mut pool);
    let r = open(&mut pool, "/nonexistent-directory-of-aslet/deeper/data.db".to_string());
    let e = r.expect_err("the path cannot be opened");
    match &e {
        AsletError::Sqlite(engine) => {
            assert_eq!(engine.fault, EngineFault::SqliteFailure);
            assert_eq!(engine.native, Some(rusqlite::ErrorCode::CannotOpen as i64));
        }
        other => panic!("not an engine error: {:?}", other),
    }
    assert_eq!(e.code(), rusqlite::ErrorCode::CannotOpen as i64);
    assert!(pool.contains(a));
    for id in 0..8 {
        assert_eq!(pool.contains(id), id == a);
    }
    let mut empty = ConnPool::new();
    assert!(open(&mut empty, "/nonexistent-directory-of-aslet/x.db".to_string()).is_err());
    for id in 0..8 {
        assert!(!empty.contains(id));
    }
}

#[test]
fn unknown_connection_is_refused_by_every_operation() {
    let mut pool = ConnPool::new();
    let a = memory(&mut pool);
    let missing = a + 5;
    let e = exec(&pool, missing, none(), "select 1".to_string()).expect_err("no such id");
    assert!(is_invalid_connection(&e, missing));
    assert_eq!(e.code(), 10001);
    assert_eq!(e.message(), format!("invalid connection id: {}", missing));
    let e = query(&pool, missing, none(), "select 1".to_string()).expect_err("no such id");
    assert!(is_invalid_connection(&e, missing));
    let rows = Rows::new(vec![DataRow::new(vec![Value::Int(1)])]);
    let e = batch_insert(&mut pool, missing, rows, "select ?1".to_string())
        .expect_err("no such id");
    assert!(is_invalid_connection(&e, missing));
    let e = get_conn(&pool, missing).expect_err("no such id");
    assert!(is_invalid_connection(&e, missing));
    let mut state = TransactionState::new();
    let e = commit(&mut pool, missing, &mut state).expect_err("no such id");
    assert!(is_invalid_connection(&e, missing));
    assert_eq!(state.phase(), TxPhase::Active);
    let e = rollback(&mut pool, missing, &mut state).expect_err("no such id");
    assert!(is_invalid_connection(&e, missing));
    assert_eq!(state.phase(), TxPhase::Active);
    assert!(pool.contains(a));
}

#[test]
fn exec_counts_affected_rows() {
    let mut pool = ConnPool::new();
    let a = memory(&mut pool);
    assert_eq!(run(&pool, a, "create table t (x integer)"), 0);
    assert_eq!(run(&pool, a, "insert into t values (1), (2), (3)"), 3);
    assert_eq!(run(&pool, a, "update t set x = x + 1 where x > 1"), 2);
    assert_eq!(run(&pool, a, "delete from t"), 3);
    let n = exec(&pool, a, DataRow::new(vec![Value::Int(9)]), "insert into t values (?1)".to_string());
    assert_eq!(n.expect("the insert runs"), 1);
    assert_eq!(count(&pool, a, "t"), 1);
}

#[test]
fn exec_reports_engine_errors() {
    let mut pool = ConnPool::new();
    let a = memory(&mut pool);
    let e = exec(&pool, a, none(), "this is not sql".to_string()).expect_err("bad sql");
    assert!(matches!(e, AsletError::Sqlite(_)));
    let e = exec(&pool, a, none(), "select 1".to_string()).expect_err("a query is no statement");
    match e {
        AsletError::Sqlite(engine) => {
            assert_eq!(engine.fault, EngineFault::ExecuteReturnedResults);
            assert_eq!(engine.native, None);
        }
        other => panic!("not an engine error: {:?}", other),
    }
    let e = exec(&pool, a, DataRow::new(vec![Value::Int(1)]), "select 1 where 1 = 0".to_string());
    match e.expect_err("one parameter too many") {
        AsletError::Sqlite(engine) => assert_eq!(engine.fault, EngineFault::InvalidParameterCount),
        other => panic!("not an engine error: {:?}", other),
    }
    assert!(pool.contains(a));
    assert_eq!(run(&pool, a, "create table still_works (x)"), 0);
}

#[test]
fn round_trip_of_every_kind_of_value() {
    let mut pool = ConnPool::new();
    let a = memory(&mut pool);
    run(&pool, a, "create table kinds (i, r, t, b, n)");
    let written = DataRow::new(vec![
        Value::Int(-42),
        number(2.5),
        text("héllo"),
        Value::Blob(vec![0, 1, 254, 255]),
        Value::Null,
    ]);
    let n = exec(&pool, a, written, "insert into kinds values (?1, ?2, ?3, ?4, ?5)".to_string());
    assert_eq!(n.expect("the insert runs"), 1);
    let (rows, columns) = query(&pool, a, none(), "select i, r, t, b, n from kinds".to_string())
        .expect("the query runs");
    assert_eq!(
        columns,
        Columns::new(vec![
            "i".to_string(),
            "r".to_string(),
            "t".to_string(),
            "b".to_string(),
            "n".to_string()
        ])
    );
    assert_eq!(rows.len(), 1);
    assert_eq!(
        rows.get(0),
        Some(&DataRow::new(vec![
            Value::Int(-42),
            number(2.5),
            text("héllo"),
            Value::Blob(vec![0, 1, 254, 255]),
            Value::Null,
        ]))
    );
    let (rows, columns) = query(&pool, a, none(), "select n, b, t, r, i from kinds".to_string())
        .expect("the query runs");
    assert_eq!(columns.as_ref(), &vec!["n", "b", "t", "r", "i"]);
    assert_eq!(
        rows.get(0),
        Some(&DataRow::new(vec![
            Value::Null,
            Value::Blob(vec![0, 1, 254, 255]),
            text("héllo"),
            number(2.5),
            Value::Int(-42),
        ]))
    );
}

#[test]
fn round_trip_of_extreme_values() {
    let mut pool = ConnPool::new();
    let a = memory(&mut pool);
    run(&pool, a, "create table edge (i, j, r, t, b)");
    let written = DataRow::new(vec![
        Value::Int(i64::MAX),
        Value::Int(i64::MIN),
        number(-1.0e300),
        text(""),
        Value::Blob(Vec::new()),
    ]);
    exec(&pool, a, written, "insert into edge values (?1, ?2, ?3, ?4, ?5)".to_string())
        .expect("the insert runs");
    let (rows, _) = query(&pool, a, none(), "select * from edge".to_string()).expect("runs");
    assert_eq!(
        rows.get(0),
        Some(&DataRow::new(vec![
            Value::Int(i64::MAX),
            Value::Int(i64::MIN),
            number(-1.0e300),
            text(""),
            Value::Blob(Vec::new()),
        ]))
    );
}

#[test]
fn fetch_keeps_result_set_order_and_binds_parameters() {
    let mut pool = ConnPool::new();
    let a = memory(&mut pool);
    run(&pool, a, "create table t (x integer, y text)");
    run(&pool, a, "insert into t values (3, 'c'), (1, 'a'), (2, 'b')");
    let (rows, columns) = query(
        &pool,
        a,
        DataRow::new(vec![Value::Int(1)]),
        "select y, x from t where x > ?1 order by x desc".to_string(),
    )
    .expect("the query runs");
    assert_eq!(columns.as_ref(), &vec!["y", "x"]);
    assert_eq!(
        rows,
        Rows::new(vec![
            DataRow::new(vec![text("c"), Value::Int(3)]),
            DataRow::new(vec![text("b"), Value::Int(2)]),
        ])
    );
    let (rows, columns) = query(&pool, a, none(), "select x from t where x > 9".to_string())
        .expect("the query runs");
    assert_eq!(rows.len(), 0);
    assert_eq!(columns.as_ref(), &vec!["x"]);
    let e = query(&pool, a, none(), "select nothing from nowhere".to_string());
    assert!(matches!(e, Err(AsletError::Sqlite(_))));
}

#[test]
fn batch_insert_inserts_every_row() {
    let mut pool = ConnPool::new();
    let a = memory(&mut pool);
    run(&pool, a, "create table t (name text not null, value integer)");
    let rows = Rows::new(vec![
        DataRow::new(vec![text("a"), Value::Int(1)]),
        DataRow::new(vec![text("b"), Value::Int(2)]),
        DataRow::new(vec![text("c"), Value::Int(3)]),
    ]);
    let n = batch_insert(&mut pool, a, rows, "insert into t values (?1, ?2)".to_string());
    assert_eq!(n.expect("the batch runs"), 3);
    assert_eq!(count(&pool, a, "t"), 3);
    let n = batch_insert(&mut pool, a, Rows::new(Vec::new()), "insert into t values (?1, ?2)".to_string());
    assert_eq!(n.expect("an empty batch runs"), 0);
    assert_eq!(count(&pool, a, "t"), 3);
    let rows = Rows::new(vec![DataRow::new(vec![Value::Int(10)]), DataRow::new(vec![Value::Int(0)])]);
    let n = batch_insert(&mut pool, a, rows, "update t set value = value + 1 where value > ?1".to_string());
    assert_eq!(n.expect("the batch runs"), 3);
}

fn batch_with_bad_row(n: usize, k: usize) {
    let mut pool = ConnPool::new();
    let a = memory(&mut pool);
    run(&pool, a, "create table t (name text not null, value integer)");
    run(&pool, a, "insert into t values ('before', 0)");
    let mut rows = Vec::new();
    for i in 1..=n {
        let name = if i == k { Value::Null } else { text("row") };
        rows.push(DataRow::new(vec![name, Value::Int(i as i64)]));
    }
    let r = batch_insert(&mut pool, a, Rows::new(rows), "insert into t values (?1, ?2)".to_string());
    match r.expect_err("the batch fails") {
        AsletError::Sqlite(engine) => {
            assert_eq!(engine.fault, EngineFault::SqliteFailure);
            assert_eq!(engine.native, Some(rusqlite::ErrorCode::ConstraintViolation as i64));
        }
        other => panic!("not an engine error: {:?}", other),
    }
    assert_eq!(count(&pool, a, "t"), 1);
    assert!(pool.contains(a));
    assert_eq!(run(&pool, a, "insert into t values ('after', 1)"), 1);
    assert_eq!(count(&pool, a, "t"), 2);
}

#[test]
fn batch_insert_is_all_or_nothing_when_the_first_row_fails() {
    batch_with_bad_row(1, 1);
    batch_with_bad_row(5, 1);
}

#[test]
fn batch_insert_is_all_or_nothing_when_a_middle_row_fails() {
    batch_with_bad_row(5, 3);
    batch_with_bad_row(2, 2);
}

#[test]
fn batch_insert_is_all_or_nothing_when_the_last_row_fails() {
    batch_with_bad_row(5, 5);
    batch_with_bad_row(40, 40);
}

#[test]
fn batch_report_says_where_the_batch_stopped() {
    let mut pool = ConnPool::new();
    let a = memory(&mut pool);
    run(&pool, a, "create table t (name text not null, value integer)");
    let good = |i: i64| DataRow::new(vec![text("row"), Value::Int(i)]);
    let bad = |i: i64| DataRow::new(vec![Value::Null, Value::Int(i)]);
    let sql = "insert into t values (?1, ?2)";

    let rows = Rows::new(vec![good(1), good(2), good(3)]);
    let (r, report) = batch_insert_reported(&mut pool, a, rows, sql.to_string());
    assert_eq!(r.expect("the batch runs"), 3);
    assert_eq!(report, BatchReport { counts: vec![1, 1, 1], committed: true });
    assert_eq!(count(&pool, a, "t"), 3);

    let rows = Rows::new(vec![good(4), good(5), bad(6), good(7)]);
    let (r, report) = batch_insert_reported(&mut pool, a, rows, sql.to_string());
    assert!(r.is_err());
    assert_eq!(report, BatchReport { counts: vec![1, 1], committed: false });
    assert_eq!(count(&pool, a, "t"), 3);

    let rows = Rows::new(vec![bad(8), good(9)]);
    let (r, report) = batch_insert_reported(&mut pool, a, rows, sql.to_string());
    assert!(r.is_err());
    assert_eq!(report, BatchReport { counts: Vec::new(), committed: false });
    assert_eq!(report.executed(), 0);
    assert_eq!(count(&pool, a, "t"), 3);

    let (r, report) = batch_insert_reported(&mut pool, a, Rows::new(Vec::new()), sql.to_string());
    assert_eq!(r.expect("an empty batch runs"), 0);
    assert_eq!(report, BatchReport { counts: Vec::new(), committed: true });

    let rows = Rows::new(vec![good(1)]);
    let (r, report) = batch_insert_reported(&mut pool, a + 9, rows, sql.to_string());
    assert!(is_invalid_connection(&r.expect_err("no such id"), a + 9));
    assert_eq!(report, BatchReport { counts: Vec::new(), committed: false });
}

#[test]
fn batch_insert_with_bad_sql_changes_nothing() {
    let mut pool = ConnPool::new();
    let a = memory(&mut pool);
    run(&pool, a, "create table t (x)");
    let rows = Rows::new(vec![DataRow::new(vec![Value::Int(1)])]);
    let r = batch_insert(&mut pool, a, rows, "insert into missing values (?1)".to_string());
    assert!(matches!(r, Err(AsletError::Sqlite(_))));
    assert_eq!(count(&pool, a, "t"), 0);
}

#[test]
fn transaction_commit_makes_changes_visible_and_frees_the_connection() {
    let mut pool = ConnPool::new();
    let (base, path) = shared(&mut pool, "aslet_commit");
    run(&pool, base, "create table t (x integer)");
    let tx = begin_transaction(&mut pool, path).expect("the transaction begins");
    assert_ne!(tx, base);
    assert!(pool.contains(tx));
    let mut state = TransactionState::new();
    assert!(state.is_active());
    assert_eq!(run(&pool, tx, "insert into t values (1), (2)"), 2);
    commit(&mut pool, tx, &mut state).expect("the commit succeeds");
    assert_eq!(state.phase(), TxPhase::Committed);
    assert!(!state.is_active());
    assert!(!pool.contains(tx));
    assert!(pool.contains(base));
    assert_eq!(count(&pool, base, "t"), 2);
}

#[test]
fn transaction_rollback_discards_changes_and_frees_the_connection() {
    let mut pool = ConnPool::new();
    let (base, path) = shared(&mut pool, "aslet_rollback");
    run(&pool, base, "create table t (x integer)");
    run(&pool, base, "insert into t values (7)");
    let tx = begin_transaction(&mut pool, path).expect("the transaction begins");
    let mut state = TransactionState::new();
    assert_eq!(run(&pool, tx, "insert into t values (1), (2)"), 2);
    assert_eq!(count(&pool, tx, "t"), 3);
    rollback(&mut pool, tx, &mut state).expect("the rollback succeeds");
    assert_eq!(state.phase(), TxPhase::RolledBack);
    assert!(!pool.contains(tx));
    assert_eq!(count(&pool, base, "t"), 1);
}

fn is_invalid_transaction(r: Result<(), AsletError>) -> bool {
    match r {
        Err(e) => {
            e.code() == 10002
                && e.message() == "invalid transaction"
                && matches!(e, AsletError::Internal(InternalError::InvalidTransaction))
        }
        Ok(()) => false,
    }
}

#[test]
fn transaction_ends_once_after_commit() {
    let mut pool = ConnPool::new();
    let (base, path) = shared(&mut pool, "aslet_twice_commit");
    run(&pool, base, "create table t (x integer)");
    let tx = begin_transaction(&mut pool, path.clone()).expect("the transaction begins");
    let mut state = TransactionState::new();
    run(&pool, tx, "insert into t values (1)");
    commit(&mut pool, tx, &mut state).expect("the first commit succeeds");
    assert!(is_invalid_transaction(commit(&mut pool, tx, &mut state)));
    assert!(is_invalid_transaction(rollback(&mut pool, tx, &mut state)));
    assert!(is_invalid_transaction(commit(&mut pool, tx, &mut state)));
    assert_eq!(state.phase(), TxPhase::Committed);
    assert_eq!(count(&pool, base, "t"), 1);
    // The freed id may be given out again; the transaction that is over must not touch it.
    let other = begin_transaction(&mut pool, path).expect("another transaction begins");
    run(&pool, other, "insert into t values (2)");
    assert!(is_invalid_transaction(commit(&mut pool, other, &mut state)));
    assert!(is_invalid_transaction(rollback(&mut pool, other, &mut state)));
    assert!(pool.contains(other));
    assert_eq!(count(&pool, other, "t"), 2);
    let mut other_state = TransactionState::new();
    rollback(&mut pool, other, &mut other_state).expect("the other rollback succeeds");
    assert_eq!(count(&pool, base, "t"), 1);
}

#[test]
fn transaction_ends_once_after_rollback() {
    let mut pool = ConnPool::new();
    let (base, path) = shared(&mut pool, "aslet_twice_rollback");
    run(&pool, base, "create table t (x integer)");
    let tx = begin_transaction(&mut pool, path).expect("the transaction begins");
    let mut state = TransactionState::new();
    run(&pool, tx, "insert into t values (1)");
    rollback(&mut pool, tx, &mut state).expect("the first rollback succeeds");
    assert!(is_invalid_transaction(rollback(&mut pool, tx, &mut state)));
    assert!(is_invalid_transaction(commit(&mut pool, tx, &mut state)));
    assert_eq!(state.phase(), TxPhase::RolledBack);
    assert_eq!(count(&pool, base, "t"), 0);
}

#[test]
fn transaction_state_records_what_it_is_told() {
    let mut state = TransactionState::new();
    assert_eq!(state.phase(), TxPhase::Active);
    state.commit();
    assert_eq!(state.phase(), TxPhase::Committed);
    assert!(!state.is_active());
    let mut state = TransactionState::new();
    state.rollback();
    assert_eq!(state.phase(), TxPhase::RolledBack);
    assert!(!state.is_active());
}

#[test]
fn transaction_state_ends_once() {
    let mut state = TransactionState::new();
    state.rollback();
    state.commit();
    assert_eq!(state.phase(), TxPhase::RolledBack);
    state.rollback();
    assert_eq!(state.phase(), TxPhase::RolledBack);
    assert!(!state.is_active());
    let mut state = TransactionState::new();
    state.commit();
    state.rollback();
    assert_eq!(state.phase(), TxPhase::Committed);
    state.commit();
    assert_eq!(state.phase(), TxPhase::Committed);
}

#[test]
fn end_transaction_settles_each_answer() {
    let mut pool = ConnPool::new();
    let a = memory(&mut pool);
    let mut state = TransactionState::new();
    let r = end_transaction(&mut pool, a, &mut state, Err(rusqlite::Error::InvalidQuery), Ending::Commit);
    match r {
        Err(AsletError::Sqlite(e)) => assert_eq!(e.fault, EngineFault::InvalidQuery),
        other => panic!("not the engine's failure: {:?}", other),
    }
    assert_eq!(state.phase(), TxPhase::Active);
    assert!(pool.contains(a));
    end_transaction(&mut pool, a, &mut state, Ok(0), Ending::Rollback).expect("the engine accepted");
    assert_eq!(state.phase(), TxPhase::RolledBack);
    assert!(!pool.contains(a));
    let b = memory(&mut pool);
    assert!(is_invalid_transaction(end_transaction(&mut pool, b, &mut state, Ok(0), Ending::Commit)));
    assert_eq!(state.phase(), TxPhase::RolledBack);
    assert!(pool.contains(b));
    let mut other = TransactionState::new();
    end_transaction(&mut pool, b, &mut other, Ok(0), Ending::Commit).expect("the engine accepted");
    assert_eq!(other.phase(), TxPhase::Committed);
    assert!(!pool.contains(b));
}

#[test]
fn counts_are_added_up() {
    assert_eq!(total_of(&Vec::new()), 0);
    assert_eq!(total_of(&vec![4]), 4);
    assert_eq!(total_of(&vec![1, 2, 3, 0, 10]), 16);
    assert_eq!(total_of(&vec![usize::MAX, 2]), 1);
}

#[test]
fn settle_batch_gives_the_sum_only_when_committed() {
    let (r, report) = settle_batch(vec![2, 0, 5], Ok(Ok(())));
    assert_eq!(r.expect("committed"), 7);
    assert_eq!(report, BatchReport { counts: vec![2, 0, 5], committed: true });
    let (r, report) = settle_batch(Vec::new(), Ok(Ok(())));
    assert_eq!(r.expect("committed"), 0);
    assert_eq!(report, BatchReport { counts: Vec::new(), committed: true });
    let (r, report) = settle_batch(vec![2, 1], Ok(Err(rusqlite::Error::InvalidQuery)));
    match r {
        Err(AsletError::Sqlite(e)) => assert_eq!(e.fault, EngineFault::InvalidQuery),
        other => panic!("not the engine's failure: {:?}", other),
    }
    assert_eq!(report, BatchReport { counts: vec![2, 1], committed: false });
    let refusal = AsletError::Internal(InternalError::InvalidConnection(3));
    let (r, report) = settle_batch(vec![1], Err(refusal));
    assert!(is_invalid_connection(&r.expect_err("refused"), 3));
    assert_eq!(report, BatchReport { counts: vec![1], committed: false });
    assert_eq!(report.executed(), 1);
}

#[test]
fn batch_counts_every_row() {
    let mut pool = ConnPool::new();
    let a = memory(&mut pool);
    run(&pool, a, "create table t (name text, value integer)");
    run(&pool, a, "insert into t values ('a', 1), ('a', 2), ('b', 3)");
    let rows = Rows::new(vec![
        DataRow::new(vec![text("a")]),
        DataRow::new(vec![text("none")]),
        DataRow::new(vec![text("b")]),
    ]);
    let sql = "update t set value = value + 1 where name = ?1";
    let (r, report) = batch_insert_reported(&mut pool, a, rows, sql.to_string());
    assert_eq!(r.expect("the batch runs"), 3);
    assert_eq!(report, BatchReport { counts: vec![2, 0, 1], committed: true });
}

#[test]
fn begin_transaction_on_a_bad_path_keeps_the_pool() {
    let mut pool = ConnPool::new();
    let r = begin_transaction(&mut pool, "/nonexistent-directory-of-aslet/tx.db".to_string());
    assert!(matches!(r, Err(AsletError::Sqlite(_))));
    for id in 0..8 {
        assert!(!pool.contains(id));
    }
}

#[test]
fn commit_that_the_engine_refuses_changes_nothing() {
    let mut pool = ConnPool::new();
    let a = memory(&mut pool);
    let mut state = TransactionState::new();
    // No transaction is open on this connection, so the engine refuses to commit.
    let r = commit(&mut pool, a, &mut state);
    assert!(matches!(r, Err(AsletError::Sqlite(_))));
    assert_eq!(state.phase(), TxPhase::Active);
    assert!(pool.contains(a));
    let r = rollback(&mut pool, a, &mut state);
    assert!(matches!(r, Err(AsletError::Sqlite(_))));
    assert_eq!(state.phase(), TxPhase::Active);
    assert!(pool.contains(a));
}

#[test]
fn close_removes_a_live_connection_only() {
    let mut pool = ConnPool::new();
    let a = memory(&mut pool);
    let b = memory(&mut pool);
    assert!(close(&mut pool, a));
    assert!(!pool.contains(a));
    assert!(pool.contains(b));
    assert!(!close(&mut pool, a));
    assert!(!close(&mut pool, b + 10));
    assert!(pool.contains(b));
    assert!(pool.take(b).is_some());
    assert!(pool.take(b).is_none());
    assert!(pool.get(b).is_none());
    assert!(pool.get_mut(b).is_none());
}

#[test]
fn pool_insert_returns_a_free_id() {
    let mut pool = ConnPool::new();
    let a = pool.insert(rusqlite::Connection::open_in_memory().expect("opens"));
    let b = pool.insert(rusqlite::Connection::open_in_memory().expect("opens"));
    assert_ne!(a, b);
    assert!(pool.contains(a) && pool.contains(b));
    assert!(pool.get_mut(a).is_some());
    assert!(pool.take(a).is_some());
    let c = pool.insert(rusqlite::Connection::open_in_memory().expect("opens"));
    assert_ne!(c, b);
    assert!(pool.contains(c));
}

#[test]
fn statements_of_a_transaction() {
    assert_eq!(begin_statement(), "BEGIN TRANSACTION;");
    assert_eq!(Ending::Commit.statement(), "COMMIT;");
    assert_eq!(Ending::Rollback.statement(), "ROLLBACK;");
}

#[test]
fn fetch_takes_the_names_it_is_given() {
    let mut pool = ConnPool::new();
    let a = memory(&mut pool);
    run(&pool, a, "create table t (x integer, y text)");
    run(&pool, a, "insert into t values (1, 'a')");
    let given = vec!["first".to_string(), "second".to_string()];
    let (rows, columns) = fetch(&pool, a, none(), "select x, y from t".to_string(), Ok(given))
        .expect("the query runs");
    assert_eq!(columns.as_ref(), &vec!["first", "second"]);
    assert_eq!(rows, Rows::new(vec![DataRow::new(vec![Value::Int(1), text("a")])]));
}

#[test]
fn fetch_fails_when_the_names_could_not_be_read() {
    let mut pool = ConnPool::new();
    let a = memory(&mut pool);
    run(&pool, a, "create table t (x integer)");
    let unreadable = Err(rusqlite::Error::InvalidColumnName("\u{fffd}".to_string()));
    let r = fetch(&pool, a, none(), "select x from t".to_string(), unreadable);
    match r.expect_err("the names could not be read") {
        AsletError::Sqlite(engine) => {
            assert_eq!(engine.fault, EngineFault::InvalidColumnName);
            assert_eq!(engine.code(), 12013);
        }
        other => panic!("not an engine error: {:?}", other),
    }
    // An id that is not live comes first, whatever the names came to.
    let unreadable = Err(rusqlite::Error::InvalidQuery);
    let e = fetch(&pool, a + 3, none(), "select x from t".to_string(), unreadable)
        .expect_err("no such id");
    assert!(is_invalid_connection(&e, a + 3));
    // A query that cannot be prepared fails with its own error.
    let e = fetch(&pool, a, none(), "select from".to_string(), Ok(Vec::new()));
    assert!(matches!(e, Err(AsletError::Sqlite(_))));
}
