//! The calls into the SQL engine.
//!
//! What the engine answers depends on the database it is working on, so nothing
//! is claimed of the answers. The operations built on these calls say what they
//! do with every possible answer.
//!
//! The names of the columns of a query are not read here: the engine's accessor
//! for them does not return when a name is not valid text, so they are read
//! outside and handed in.

use vstd::prelude::*;
use crate::types::DataRow;
use crate::types::value_of;
use crate::types::Value;

verus! {

/// A prepared statement kept in the cache of its connection.
#[verifier::external_type_specification]
#[verifier::external_body]
pub struct ExCachedStatement<'conn>(rusqlite::CachedStatement<'conn>);

/// A prepared statement.
#[verifier::external_type_specification]
#[verifier::external_body]
pub struct ExStatement<'conn>(rusqlite::Statement<'conn>);

/// A transaction of the engine on one connection. Dropped without a commit, it
/// rolls back.
#[verifier::external_type_specification]
#[verifier::external_body]
pub struct ExEngineTransaction<'conn>(rusqlite::Transaction<'conn>);

/// Calls `rusqlite::Connection::open` on the path.
#[verifier::external_body]
pub(crate) fn open_connection(path: &str) -> Result<rusqlite::Connection, rusqlite::Error> {
    rusqlite::Connection::open(path)
}

/// Calls `rusqlite::Connection::execute` with the statement and no parameters.
#[verifier::external_body]
pub(crate) fn execute_plain(conn: &rusqlite::Connection, sql: &str) -> Result<
    usize,
    rusqlite::Error,
> {
    conn.execute(sql, [])
}

/// Calls `rusqlite::Connection::prepare_cached`.
#[verifier::external_body]
pub(crate) fn prepare_cached<'conn>(conn: &'conn rusqlite::Connection, sql: &str) -> Result<
    rusqlite::CachedStatement<'conn>,
    rusqlite::Error,
> {
    conn.prepare_cached(sql)
}

/// Calls `rusqlite::Statement::execute` on a cached statement with the bound
/// parameters in order.
#[verifier::external_body]
pub(crate) fn execute_cached(
    stmt: &mut rusqlite::CachedStatement<'_>,
    params: &Vec<rusqlite::types::ToSqlOutput<'_>>,
) -> Result<usize, rusqlite::Error> {
    stmt.execute(rusqlite::params_from_iter(params.iter()))
}

/// A row of a result set as the engine hands it out, before it is read.
#[verifier::external_type_specification]
#[verifier::external_body]
pub struct ExEngineRow<'stmt>(rusqlite::Row<'stmt>);

/// The number of columns of a row of the engine.
pub uninterp spec fn width_of(row: rusqlite::Row<'_>) -> nat;

/// What the engine hands out for the column `i` of a row: the engine's value,
/// or its failure.
pub uninterp spec fn cell_of(row: rusqlite::Row<'_>, i: int) -> Result<
    rusqlite::types::ValueRef<'_>,
    rusqlite::Error,
>;

/// Calls `rusqlite::Statement::column_count` on the statement of the row: the
/// number of columns of the row.
#[verifier::external_body]
fn row_width(row: &rusqlite::Row<'_>) -> (n: usize)
    ensures
        n == width_of(*row),
{
    row.as_ref().column_count()
}

/// Calls `rusqlite::Row::get_ref`: what the engine hands out for that column of
/// the row.
#[verifier::external_body]
fn row_value<'a>(row: &'a rusqlite::Row<'_>, i: usize) -> (r: Result<
    rusqlite::types::ValueRef<'a>,
    rusqlite::Error,
>)
    ensures
        r == cell_of(*row, i as int),
{
    row.get_ref(i)
}

/// Whether `values` is what reading the row gives: one value for each column of
/// the row, in column order, each what the engine's value of that column holds.
pub open spec fn read_as(row: rusqlite::Row<'_>, values: Seq<Value>) -> bool {
    &&& values.len() == width_of(row)
    &&& forall|i: int|
        0 <= i < values.len() ==> cell_of(row, i) is Ok && #[trigger] values[i] == value_of(
            cell_of(row, i)->Ok_0,
        )
}

/// Whether every row is what reading a row of the engine gives.
pub open spec fn all_read(rows: Seq<DataRow>) -> bool {
    forall|k: int|
        0 <= k < rows.len() ==> exists|row: rusqlite::Row<'_>|
            read_as(row, (#[trigger] rows[k])@)
}

/// Reads the values of a row of the engine, column by column from the first, and
/// stops at the first column that the engine fails to read. On success there is
/// one value for each column, in column order.
pub fn read_cells(row: &rusqlite::Row<'_>) -> (r: Result<Vec<Value>, rusqlite::Error>)
    ensures
        r matches Ok(out) ==> read_as(*row, out@),
        r is Err ==> exists|i: int| 0 <= i < width_of(*row) && #[trigger] cell_of(*row, i) is Err,
{
    let width = row_width(row);
    let mut out: Vec<Value> = Vec::new();
    let mut i: usize = 0;
    while i < width
        invariant
            i <= width,
            width == width_of(*row),
            out@.len() == i,
            forall|k: int|
                0 <= k < i ==> cell_of(*row, k) is Ok && #[trigger] out@[k] == value_of(
                    cell_of(*row, k)->Ok_0,
                ),
        decreases width - i,
    {
        match row_value(row, i) {
            Ok(cell) => {
                out.push(Value::from_engine(cell));
            },
            Err(failure) => {
                assert(cell_of(*row, i as int) is Err);
                return Err(failure);
            },
        }
        i += 1;
    }
    Ok(out)
}

/// Reads a row of the engine into a [`DataRow`]: see [`read_cells`].
pub fn read_row(row: &rusqlite::Row<'_>) -> (r: Result<DataRow, rusqlite::Error>)
    ensures
        r matches Ok(out) ==> read_as(*row, out@),
        r is Err ==> exists|i: int| 0 <= i < width_of(*row) && #[trigger] cell_of(*row, i) is Err,
{
    match read_cells(row) {
        Ok(values) => Ok(DataRow::new(values)),
        Err(failure) => Err(failure),
    }
}

/// Calls `rusqlite::Statement::query_map` with the bound parameters in order and
/// [`read_row`] as the function, and collects what it yields. Every row of the
/// result is what `read_row` gave for a row of the engine, in the order the
/// engine produced them.
#[verifier::external_body]
pub(crate) fn query_cached(
    stmt: &mut rusqlite::CachedStatement<'_>,
    params: &Vec<rusqlite::types::ToSqlOutput<'_>>,
) -> (r: Result<Vec<DataRow>, rusqlite::Error>)
    ensures
        r matches Ok(rows) ==> all_read(rows@),
{
    stmt.query_map(rusqlite::params_from_iter(params.iter()), |row| read_row(row))?.collect()
}

/// Calls `rusqlite::Connection::transaction`.
#[verifier::external_body]
pub(crate) fn begin_engine_transaction<'conn>(conn: &'conn mut rusqlite::Connection) -> Result<
    rusqlite::Transaction<'conn>,
    rusqlite::Error,
> {
    conn.transaction()
}

/// Calls `rusqlite::Connection::prepare` on the connection of a transaction.
#[verifier::external_body]
pub(crate) fn prepare_in<'tx>(tx: &'tx rusqlite::Transaction<'_>, sql: &str) -> Result<
    rusqlite::Statement<'tx>,
    rusqlite::Error,
> {
    tx.prepare(sql)
}

/// Calls `rusqlite::Statement::execute` with the bound parameters in order.
#[verifier::external_body]
pub(crate) fn execute_statement(
    stmt: &mut rusqlite::Statement<'_>,
    params: &Vec<rusqlite::types::ToSqlOutput<'_>>,
) -> Result<usize, rusqlite::Error> {
    stmt.execute(rusqlite::params_from_iter(params.iter()))
}

/// Calls `rusqlite::Transaction::commit`.
#[verifier::external_body]
pub(crate) fn commit_engine_transaction(tx: rusqlite::Transaction<'_>) -> Result<
    (),
    rusqlite::Error,
> {
    tx.commit()
}

} // verus!
