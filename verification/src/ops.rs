//! The operations of the worker on its connection pool.
//!
//! Each operation first applies the library's own rules (is the connection
//! live, is the transaction still active), then asks the engine, then settles:
//! it turns the engine's answer into the result and updates the pool and the
//! transaction. The settling functions are public: they say, for every possible
//! answer of the engine, what the result is.

use vstd::prelude::*;
use crate::engine::all_read;
use crate::engine::begin_engine_transaction;
use crate::engine::commit_engine_transaction;
use crate::engine::execute_cached;
use crate::engine::execute_plain;
use crate::engine::execute_statement;
use crate::engine::open_connection;
use crate::engine::prepare_cached;
use crate::engine::prepare_in;
use crate::engine::query_cached;
use crate::error::AsletError;
use crate::error::InternalError;
use crate::pool::ConnPool;
use crate::transaction::TransactionState;
use crate::transaction::TxPhase;
use crate::types::Columns;
use crate::types::DataRow;
use crate::types::Rows;

verus! {

/// The error for a connection id that is not live.
pub open spec fn invalid_connection(conn_id: usize) -> AsletError {
    AsletError::Internal(InternalError::InvalidConnection(conn_id))
}

/// The error for a transaction that is over.
pub open spec fn invalid_transaction() -> AsletError {
    AsletError::Internal(InternalError::InvalidTransaction)
}

/// What taking a new connection into the pool leaves behind: on success the
/// pool has grown by the new id, which was free; on failure the error is the
/// engine's and the pool is as it was.
pub open spec fn grew_by(before: Set<usize>, r: Result<usize, AsletError>, after: Set<usize>) -> bool {
    match r {
        Ok(id) => !before.contains(id) && after == before.insert(id),
        Err(e) => e.is_engine() && after == before,
    }
}

/// What an operation on the connection `conn_id` may return: if the id is not
/// live, exactly `InvalidConnection`; if it is, any success, or an error of the
/// engine.
pub open spec fn on_connection<T>(pool: Set<usize>, conn_id: usize, r: Result<T, AsletError>) -> bool {
    if pool.contains(conn_id) {
        r matches Err(e) ==> e.is_engine()
    } else {
        r matches Err(e) && e == invalid_connection(conn_id)
    }
}

/// The number of affected rows as the caller receives it: the engine's count,
/// reinterpreted as a signed number.
pub fn affected_count(n: usize) -> (c: i64)
    ensures
        c == n as i64,
{
    n as i64
}

/// The live connection with this id, or the error `InvalidConnection`.
pub fn get_conn(pool: &ConnPool, conn_id: usize) -> (r: Result<&rusqlite::Connection, AsletError>)
    ensures
        r is Ok <==> pool@.contains(conn_id),
        r matches Err(e) ==> e == invalid_connection(conn_id),
{
    match pool.get(conn_id) {
        Some(conn) => Ok(conn),
        None => Err(AsletError::Internal(InternalError::InvalidConnection(conn_id))),
    }
}

/// The live connection with this id for exclusive use, or the error
/// `InvalidConnection`. The pool keeps its connections.
pub fn get_conn_mut(pool: &mut ConnPool, conn_id: usize) -> (r: Result<
    &mut rusqlite::Connection,
    AsletError,
>)
    ensures
        r is Ok <==> old(pool)@.contains(conn_id),
        r matches Err(e) ==> e == invalid_connection(conn_id),
        final(pool)@ == old(pool)@,
{
    match pool.get_mut(conn_id) {
        Some(conn) => Ok(conn),
        None => Err(AsletError::Internal(InternalError::InvalidConnection(conn_id))),
    }
}

/// Settles an attempt to open a connection: a connection that was opened enters
/// the pool under a fresh id; a failure leaves the pool as it was.
pub fn enroll(pool: &mut ConnPool, opened: Result<rusqlite::Connection, rusqlite::Error>) -> (r:
    Result<usize, AsletError>)
    ensures
        r is Ok <==> opened is Ok,
        grew_by(old(pool)@, r, final(pool)@),
        opened matches Err(failure) ==> r matches Err(e) && e.stands_for(failure),
{
    match opened {
        Ok(conn) => Ok(pool.insert(conn)),
        Err(failure) => Err(AsletError::engine(failure)),
    }
}

/// Opens a connection to the database at `path` and takes it into the pool.
/// Returns the new id together with the path. If the engine refuses, the error
/// is the engine's and the pool is as it was.
pub fn open(pool: &mut ConnPool, path: String) -> (r: Result<(usize, String), AsletError>)
    ensures
        match r {
            Ok((id, p)) => p == path && !old(pool)@.contains(id) && final(pool)@ == old(
                pool,
            )@.insert(id),
            Err(e) => e.is_engine() && final(pool)@ == old(pool)@,
        },
{
    let opened = open_connection(path.as_str());
    match enroll(pool, opened) {
        Ok(id) => Ok((id, path)),
        Err(e) => Err(e),
    }
}

/// Settles the start of a transaction on a connection that was just opened: if
/// the engine accepted the statement that begins it, the connection enters the
/// pool under a fresh id; if not, the connection is closed and the pool is as it
/// was.
pub fn enroll_transaction(
    pool: &mut ConnPool,
    conn: rusqlite::Connection,
    begun: Result<usize, rusqlite::Error>,
) -> (r: Result<usize, AsletError>)
    ensures
        r is Ok <==> begun is Ok,
        grew_by(old(pool)@, r, final(pool)@),
        begun matches Err(failure) ==> r matches Err(e) && e.stands_for(failure),
{
    match begun {
        Ok(_) => Ok(pool.insert(conn)),
        Err(failure) => Err(AsletError::engine(failure)),
    }
}

/// Begins a transaction on a connection of its own: opens a new connection to
/// the database at `path`, issues `BEGIN TRANSACTION;` on it and takes it into
/// the pool. No connection that was live before is touched. If the engine
/// refuses either step, the error is the engine's and the pool is as it was.
pub fn begin_transaction(pool: &mut ConnPool, path: String) -> (r: Result<usize, AsletError>)
    ensures
        grew_by(old(pool)@, r, final(pool)@),
{
    match open_connection(path.as_str()) {
        Ok(conn) => {
            let begun = execute_plain(&conn, begin_statement());
            enroll_transaction(pool, conn, begun)
        },
        Err(failure) => Err(AsletError::engine(failure)),
    }
}

/// Settles the execution of a statement: the count of affected rows, or the
/// engine's error.
pub fn count_result(executed: Result<usize, rusqlite::Error>) -> (r: Result<i64, AsletError>)
    ensures
        match executed {
            Ok(n) => r == Ok::<i64, AsletError>(n as i64),
            Err(failure) => r matches Err(e) && e.stands_for(failure),
        },
{
    match executed {
        Ok(n) => Ok(affected_count(n)),
        Err(failure) => Err(AsletError::engine(failure)),
    }
}

/// Executes a statement that returns no rows, with `params` bound in order, on
/// the connection `conn_id`. An id that is not live gives `InvalidConnection`;
/// on a live connection every error is the engine's.
pub fn exec(pool: &ConnPool, conn_id: usize, params: DataRow, query: String) -> (r: Result<
    i64,
    AsletError,
>)
    ensures
        on_connection(pool@, conn_id, r),
{
    let conn = match get_conn(pool, conn_id) {
        Ok(conn) => conn,
        Err(e) => {
            return Err(e);
        },
    };
    match prepare_cached(conn, query.as_str()) {
        Ok(mut stmt) => {
            let bound = params.bind();
            count_result(execute_cached(&mut stmt, &bound))
        },
        Err(failure) => Err(AsletError::engine(failure)),
    }
}

/// Settles a query: the rows in the order the engine produced them, beside the
/// column names, or the engine's error.
pub fn table_result(queried: Result<Vec<DataRow>, rusqlite::Error>, names: Vec<String>) -> (r: Result<
    (Rows, Columns),
    AsletError,
>)
    ensures
        match queried {
            Ok(rows) => r matches Ok((out, columns)) && out@ == rows@ && columns@ == names@,
            Err(failure) => r matches Err(e) && e.stands_for(failure),
        },
{
    match queried {
        Ok(rows) => Ok((Rows::new(rows), Columns::new(names))),
        Err(failure) => Err(AsletError::engine(failure)),
    }
}

/// What running a query on the connection `conn_id` may return, where `names`
/// is what reading the names of the query's columns came to. An id that is not
/// live gives exactly `InvalidConnection`. On a live connection every error is
/// the engine's, and unreadable names are an error. On success the columns are
/// the names that were read, and each row holds one value for each column of
/// the engine's row, in column order.
pub open spec fn fetched(
    pool: Set<usize>,
    conn_id: usize,
    names: Result<Vec<String>, rusqlite::Error>,
    r: Result<(Rows, Columns), AsletError>,
) -> bool {
    &&& on_connection(pool, conn_id, r)
    &&& r matches Ok((rows, columns)) ==> all_read(rows@) && names is Ok && columns@
        == names->Ok_0@
    &&& pool.contains(conn_id) && names is Err ==> r is Err
}

/// Runs a query that returns rows, with `params` bound in order, on the
/// connection `conn_id`, and returns the rows with the column names. The names
/// are not read here: `names` is what reading them from the prepared query came
/// to, and a failure to read them is the failure of the query. Each row holds
/// one value for each column of the engine's row, in column order, and the rows
/// are in the order the engine produced them. An id that is not live gives
/// `InvalidConnection`; on a live connection every error is the engine's.
pub fn fetch(
    pool: &ConnPool,
    conn_id: usize,
    params: DataRow,
    query: String,
    names: Result<Vec<String>, rusqlite::Error>,
) -> (r: Result<(Rows, Columns), AsletError>)
    ensures
        fetched(pool@, conn_id, names, r),
{
    let bound = params.bind();
    let conn = match get_conn(pool, conn_id) {
        Ok(conn) => conn,
        Err(e) => {
            return Err(e);
        },
    };
    match prepare_cached(conn, query.as_str()) {
        Ok(mut stmt) => match AsletError::settle(names) {
            Ok(names) => {
                let queried = query_cached(&mut stmt, &bound);
                table_result(queried, names)
            },
            Err(e) => Err(e),
        },
        Err(failure) => Err(AsletError::engine(failure)),
    }
}

/// The sum of the counts of affected rows, as the machine adds them: 0 for no
/// count, and past the largest number the sum goes round.
pub open spec fn total(counts: Seq<usize>) -> usize
    decreases counts.len(),
{
    if counts.len() == 0 {
        0
    } else {
        total(counts.drop_last()).wrapping_add(counts.last())
    }
}

/// The sum of the counts as a number without bound.
pub open spec fn plain_total(counts: Seq<usize>) -> int
    decreases counts.len(),
{
    if counts.len() == 0 {
        0
    } else {
        plain_total(counts.drop_last()) + counts.last()
    }
}

/// As long as the sum of the counts fits, `total` is that sum.
pub proof fn lemma_total_is_the_sum(counts: Seq<usize>)
    requires
        plain_total(counts) <= usize::MAX,
    ensures
        total(counts) == plain_total(counts),
    decreases counts.len(),
{
    if counts.len() > 0 {
        lemma_plain_total_grows(counts);
        lemma_total_is_the_sum(counts.drop_last());
    }
}

/// The sum of counts is never negative and never shrinks when a count is added.
pub proof fn lemma_plain_total_grows(counts: Seq<usize>)
    ensures
        0 <= plain_total(counts),
        counts.len() > 0 ==> plain_total(counts.drop_last()) <= plain_total(counts),
    decreases counts.len(),
{
    if counts.len() > 0 {
        lemma_plain_total_grows(counts.drop_last());
    }
}

/// Adds up the counts of affected rows.
pub fn total_of(counts: &Vec<usize>) -> (sum: usize)
    ensures
        sum == total(counts@),
{
    let mut sum: usize = 0;
    let mut i: usize = 0;
    while i < counts.len()
        invariant
            i <= counts.len(),
            sum == total(counts@.take(i as int)),
        decreases counts.len() - i,
    {
        proof {
            assert(counts@.take(i + 1).drop_last() =~= counts@.take(i as int));
        }
        sum = sum.wrapping_add(counts[i]);
        i += 1;
    }
    proof {
        assert(counts@.take(counts.len() as int) =~= counts@);
    }
    sum
}

/// What a batch insert did: the counts of affected rows that the engine gave for
/// the rows it executed, from the first row on, and whether the engine committed
/// the batch.
#[derive(Debug, PartialEq, Eq)]
pub struct BatchReport {
    pub counts: Vec<usize>,
    pub committed: bool,
}

impl BatchReport {
    /// How many rows the engine executed.
    pub fn executed(&self) -> (n: usize)
        ensures
            n == self.counts@.len(),
    {
        self.counts.len()
    }
}

/// Executes the prepared statement once for each row, in order, and stops at the
/// first row that the engine refuses. Returns the count that the engine gave
/// for each row that it executed, in order, and the engine's error for the row
/// that it refused, if it refused one.
fn insert_rows(stmt: &mut rusqlite::Statement<'_>, rows: &Rows) -> (out: (
    Vec<usize>,
    Option<AsletError>,
))
    ensures
        out.1 is None ==> out.0@.len() == rows@.len(),
        out.1 matches Some(e) ==> e.is_engine() && out.0@.len() < rows@.len(),
{
    let all = rows.as_ref();
    let mut counts: Vec<usize> = Vec::new();
    let mut i: usize = 0;
    while i < all.len()
        invariant
            i <= all.len(),
            all@ == rows@,
            counts@.len() == i,
        decreases all.len() - i,
    {
        let bound = all[i].bind();
        match execute_statement(stmt, &bound) {
            Ok(n) => {
                counts.push(n);
            },
            Err(failure) => {
                return (counts, Some(AsletError::engine(failure)));
            },
        }
        i += 1;
    }
    (counts, None)
}

/// Settles a batch once its rows were tried. `counts` holds the count of each
/// row that was executed. `ended` is the error of the row that was refused, if
/// one was, and else the engine's answer to the commit. If the engine committed,
/// the result is the sum of the counts. If a row was refused, the result is
/// that row's error. If the engine refused to commit, the error stands for that
/// failure. The batch counts as committed only in the first case.
pub fn settle_batch(counts: Vec<usize>, ended: Result<Result<(), rusqlite::Error>, AsletError>) -> (out:
    (Result<i64, AsletError>, BatchReport))
    ensures
        out.1.counts@ == counts@,
        out.1.committed <==> ended matches Ok(Ok(_)),
        match ended {
            Ok(Ok(_)) => out.0 == Ok::<i64, AsletError>(total(counts@) as i64),
            Ok(Err(failure)) => out.0 matches Err(e) && e.stands_for(failure),
            Err(refusal) => out.0 == Err::<i64, AsletError>(refusal),
        },
{
    match ended {
        Ok(Ok(_)) => {
            let sum = total_of(&counts);
            (Ok(affected_count(sum)), BatchReport { counts, committed: true })
        },
        Ok(Err(failure)) => (
            Err(AsletError::engine(failure)),
            BatchReport { counts, committed: false },
        ),
        Err(refusal) => (Err(refusal), BatchReport { counts, committed: false }),
    }
}

/// Ends the engine's transaction of a batch: asks the engine to commit if no
/// row was refused, and drops the transaction uncommitted, which rolls it back,
/// if one was. Then settles, as [`settle_batch`] says.
fn finish_batch(tx: rusqlite::Transaction<'_>, counts: Vec<usize>, refused: Option<AsletError>) -> (out:
    (Result<i64, AsletError>, BatchReport))
    ensures
        out.1.counts@ == counts@,
        out.0 is Ok <==> out.1.committed,
        out.1.committed ==> refused is None,
        out.0 matches Ok(c) ==> c == total(counts@) as i64,
        refused matches Some(e) ==> out.0 == Err::<i64, AsletError>(e),
        refused is None ==> (out.0 matches Err(e) ==> e.is_engine()),
{
    let ended = match refused {
        Some(refusal) => Err(refusal),
        None => Ok(commit_engine_transaction(tx)),
    };
    settle_batch(counts, ended)
}

/// Inserts a batch of rows on the connection `conn_id` and reports what was
/// done: one transaction of the engine, one prepared statement, executed once
/// for each row in order. The batch is all or nothing: it is committed only if
/// every row was executed, and it succeeds exactly if it was committed. Its
/// result is then the sum of the counts of affected rows that the engine gave
/// for the rows, which is 0 for a batch of no rows. After the first row that
/// fails no further row is executed and the engine is not asked to commit. An
/// id that is not live gives `InvalidConnection`; on a live connection every
/// error is the engine's. The pool keeps its connections in either case.
pub fn batch_insert_reported(pool: &mut ConnPool, conn_id: usize, rows: Rows, query: String) -> (out:
    (Result<i64, AsletError>, BatchReport))
    ensures
        final(pool)@ == old(pool)@,
        on_connection(old(pool)@, conn_id, out.0),
        out.0 is Ok <==> out.1.committed,
        out.1.committed ==> out.1.counts@.len() == rows@.len(),
        out.1.counts@.len() <= rows@.len(),
        out.0 matches Ok(c) ==> out.1.counts@.len() == rows@.len() && c == total(out.1.counts@)
            as i64,
        !old(pool)@.contains(conn_id) ==> out.1.counts@.len() == 0,
{
    let conn = match get_conn_mut(pool, conn_id) {
        Ok(conn) => conn,
        Err(e) => {
            return (Err(e), BatchReport { counts: Vec::new(), committed: false });
        },
    };
    let tx = match begin_engine_transaction(conn) {
        Ok(tx) => tx,
        Err(failure) => {
            return (
                Err(AsletError::engine(failure)),
                BatchReport { counts: Vec::new(), committed: false },
            );
        },
    };
    let (counts, refused) = match prepare_in(&tx, query.as_str()) {
        Ok(mut stmt) => insert_rows(&mut stmt, &rows),
        Err(failure) => (Vec::new(), Some(AsletError::engine(failure))),
    };
    finish_batch(tx, counts, refused)
}

/// Inserts a batch of rows on the connection `conn_id`, all or nothing, and
/// returns the sum of the counts of affected rows that the engine gave for the
/// rows: see [`batch_insert_reported`].
pub fn batch_insert(pool: &mut ConnPool, conn_id: usize, rows: Rows, query: String) -> (r: Result<
    i64,
    AsletError,
>)
    ensures
        final(pool)@ == old(pool)@,
        on_connection(old(pool)@, conn_id, r),
        r matches Ok(c) ==> exists|counts: Seq<usize>|
            counts.len() == rows@.len() && c == #[trigger] total(counts) as i64,
{
    batch_insert_reported(pool, conn_id, rows, query).0
}

/// The statement that begins a transaction.
pub fn begin_statement() -> (text: &'static str)
    ensures
        text@ == "BEGIN TRANSACTION;"@,
{
    "BEGIN TRANSACTION;"
}

/// The two ways to end a transaction.
#[derive(Clone, Copy, Debug, PartialEq, Eq, Structural)]
pub enum Ending {
    Commit,
    Rollback,
}

impl Ending {
    /// The statement that ends a transaction this way.
    pub open spec fn spec_statement(self) -> Seq<char> {
        match self {
            Ending::Commit => "COMMIT;"@,
            Ending::Rollback => "ROLLBACK;"@,
        }
    }

    /// The statement that ends a transaction this way: `COMMIT;` or `ROLLBACK;`.
    pub fn statement(self) -> (text: &'static str)
        ensures
            text@ == self.spec_statement(),
    {
        match self {
            Ending::Commit => "COMMIT;",
            Ending::Rollback => "ROLLBACK;",
        }
    }

    /// The phase that a transaction ended this way is in.
    pub open spec fn phase(self) -> TxPhase {
        match self {
            Ending::Commit => TxPhase::Committed,
            Ending::Rollback => TxPhase::RolledBack,
        }
    }
}

/// Settles the end of a transaction once the engine has answered the statement
/// that ends it. A transaction that is over gives `InvalidTransaction` and
/// nothing changes. For an active one: if the engine accepted, the transaction
/// ends in the phase of `ending` and its connection leaves the pool; if the
/// engine refused, the transaction and the pool are as they were and the error
/// stands for the engine's failure.
pub fn end_transaction(
    pool: &mut ConnPool,
    conn_id: usize,
    state: &mut TransactionState,
    executed: Result<usize, rusqlite::Error>,
    ending: Ending,
) -> (r: Result<(), AsletError>)
    ensures
        old(state)@ != TxPhase::Active ==> r == Err::<(), AsletError>(invalid_transaction())
            && *final(state) == *old(state) && final(pool)@ == old(pool)@,
        old(state)@ == TxPhase::Active ==> (r is Ok <==> executed is Ok),
        old(state)@ == TxPhase::Active ==> match r {
            Ok(_) => final(state)@ == ending.phase() && final(pool)@ == old(pool)@.remove(
                conn_id,
            ),
            Err(e) => e.is_engine() && *final(state) == *old(state) && final(pool)@ == old(pool)@,
        },
        old(state)@ == TxPhase::Active ==> (executed matches Err(failure) ==> r matches Err(e)
            && e.stands_for(failure)),
{
    if !state.is_active() {
        return Err(AsletError::Internal(InternalError::InvalidTransaction));
    }
    match executed {
        Ok(_) => {
            match ending {
                Ending::Commit => state.commit(),
                Ending::Rollback => state.rollback(),
            }
            let _ = pool.take(conn_id);
            Ok(())
        },
        Err(failure) => Err(AsletError::engine(failure)),
    }
}

/// What ending a transaction leaves behind, for each way it can go: the result
/// is given, and this says which transaction state and which pool go with it.
pub open spec fn ended_as(
    before: (TxPhase, Set<usize>),
    conn_id: usize,
    ended: TxPhase,
    r: Result<(), AsletError>,
    after: (TxPhase, Set<usize>),
) -> bool {
    if before.0 != TxPhase::Active {
        r == Err::<(), AsletError>(invalid_transaction()) && after == before
    } else if !before.1.contains(conn_id) {
        r == Err::<(), AsletError>(invalid_connection(conn_id)) && after == before
    } else {
        match r {
            Ok(_) => after == (ended, before.1.remove(conn_id)),
            Err(e) => e.is_engine() && after == before,
        }
    }
}

/// Ends a transaction in the given way, with the statement of that way.
fn finish(pool: &mut ConnPool, conn_id: usize, state: &mut TransactionState, ending: Ending) -> (r:
    Result<(), AsletError>)
    ensures
        ended_as(
            (old(state)@, old(pool)@),
            conn_id,
            ending.phase(),
            r,
            (final(state)@, final(pool)@),
        ),
{
    if !state.is_active() {
        return Err(AsletError::Internal(InternalError::InvalidTransaction));
    }
    let executed = match get_conn(pool, conn_id) {
        Ok(conn) => execute_plain(conn, ending.statement()),
        Err(e) => {
            return Err(e);
        },
    };
    end_transaction(pool, conn_id, state, executed, ending)
}

/// Rolls a transaction back. A transaction that is over gives
/// `InvalidTransaction` and nothing is touched; an id that is not live gives
/// `InvalidConnection`. Otherwise `ROLLBACK;` is issued: if the engine accepts,
/// the transaction is rolled back and its connection leaves the pool; if it
/// refuses, the error is the engine's and nothing has changed.
pub fn rollback(pool: &mut ConnPool, conn_id: usize, state: &mut TransactionState) -> (r: Result<
    (),
    AsletError,
>)
    ensures
        ended_as(
            (old(state)@, old(pool)@),
            conn_id,
            TxPhase::RolledBack,
            r,
            (final(state)@, final(pool)@),
        ),
{
    finish(pool, conn_id, state, Ending::Rollback)
}

/// Commits a transaction. A transaction that is over gives `InvalidTransaction`
/// and nothing is touched; an id that is not live gives `InvalidConnection`.
/// Otherwise `COMMIT;` is issued: if the engine accepts, the transaction is
/// committed and its connection leaves the pool; if it refuses, the error is the
/// engine's and nothing has changed.
pub fn commit(pool: &mut ConnPool, conn_id: usize, state: &mut TransactionState) -> (r: Result<
    (),
    AsletError,
>)
    ensures
        ended_as(
            (old(state)@, old(pool)@),
            conn_id,
            TxPhase::Committed,
            r,
            (final(state)@, final(pool)@),
        ),
{
    finish(pool, conn_id, state, Ending::Commit)
}

/// Closes the connection `conn_id` and says whether it was live. An id that is
/// not live changes nothing.
pub fn close(pool: &mut ConnPool, conn_id: usize) -> (closed: bool)
    ensures
        closed == old(pool)@.contains(conn_id),
        final(pool)@ == old(pool)@.remove(conn_id),
{
    pool.take(conn_id).is_some()
}

/// A transaction ends once. Whatever the first call that ended it was, and
/// whatever the engine would answer, every later commit or rollback finds the
/// transaction over: it fails with `InvalidTransaction` and leaves the
/// transaction and the pool as they are.
pub proof fn lemma_transaction_ends_once(
    before: (TxPhase, Set<usize>),
    conn_id: usize,
    first: TxPhase,
    first_result: Result<(), AsletError>,
    between: (TxPhase, Set<usize>),
    later_conn: usize,
    later: TxPhase,
    later_result: Result<(), AsletError>,
    after: (TxPhase, Set<usize>),
)
    requires
        first == TxPhase::Committed || first == TxPhase::RolledBack,
        ended_as(before, conn_id, first, first_result, between),
        first_result is Ok,
        ended_as(between, later_conn, later, later_result, after),
    ensures
        between.0 == first,
        !between.1.contains(conn_id),
        later_result == Err::<(), AsletError>(invalid_transaction()),
        after == between,
{
}

} // verus!
