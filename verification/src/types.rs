//! The value model: one database value, a row of values, a result set, and the
//! names of its columns.
//!
//! Order is significant everywhere. A [`DataRow`] lists its values in column order, a
//! [`Rows`] lists its rows in result-set order, and [`Columns`] lists the column
//! names in the positions of the values of a row.

use vstd::prelude::*;
use crate::error::InternalError;
use vstd::std_specs::convert::FromSpec;
use vstd::std_specs::convert::FromSpecImpl;

verus! {

/// A value as the engine hands it out: a tag and, for text and blobs, borrowed
/// bytes.
#[verifier::external_type_specification]
#[verifier::external_body]
pub struct ExEngineCell<'a>(rusqlite::types::ValueRef<'a>);

/// A value ready to be bound to a parameter of a statement.
#[verifier::external_type_specification]
#[verifier::external_body]
pub struct ExBoundValue<'a>(rusqlite::types::ToSqlOutput<'a>);

/// What a value handed out by the engine holds, as a [`Value`]: an integer as
/// `Int`, a real as `Number`, text as `String` with bytes that are not UTF-8
/// repaired, a blob as `Blob`, and the engine's null as `Null`.
pub uninterp spec fn value_of(cell: rusqlite::types::ValueRef<'_>) -> Value;

/// The parameter of a statement that stands for a value: the engine's value of
/// the same kind with the same content.
pub uninterp spec fn parameter_of(value: Value) -> rusqlite::types::ToSqlOutput<'static>;

/// A real number. It is carried as the engine holds it and never inspected here.
#[derive(Debug, PartialEq)]
pub struct Real {
    cell: rusqlite::types::ValueRef<'static>,
}

impl Real {
    /// The value of the engine that this real is.
    pub closed spec fn engine_cell(&self) -> rusqlite::types::ValueRef<'static> {
        self.cell
    }

    /// Accepts a value of the engine that is a real, and nothing else: the
    /// result is `Some` exactly if the value holds a real, and then it is that
    /// real, carried as the value that was given.
    pub fn from_engine(cell: rusqlite::types::ValueRef<'static>) -> (r: Option<Real>)
        ensures
            r is Some <==> value_of(cell) is Number,
            r matches Some(number) ==> number.engine_cell() == cell && value_of(cell)
                == Value::Number(number),
    {
        if cell_is_real(&cell) {
            Some(Real { cell })
        } else {
            None
        }
    }

    /// The real as a value of the engine.
    pub fn to_engine(&self) -> (cell: rusqlite::types::ValueRef<'static>)
        ensures
            cell == self.engine_cell(),
    {
        self.cell
    }
}

/// Matches a `rusqlite::types::ValueRef` against its variant `Real`: whether
/// the value holds a real. If it does, what it holds is the real that carries
/// this very value.
#[verifier::external_body]
fn cell_is_real(cell: &rusqlite::types::ValueRef<'static>) -> (holds: bool)
    ensures
        holds == (value_of(*cell) is Number),
        holds ==> value_of(*cell) == Value::Number(Real { cell: *cell }),
{
    matches!(cell, rusqlite::types::ValueRef::Real(_))
}

/// One database value.
#[derive(Debug, PartialEq)]
pub enum Value {
    Int(i64),
    Number(Real),
    String(String),
    Blob(Vec<u8>),
    Null,
}

impl Value {
    /// Reads a value handed out by the engine: the result is what the value
    /// holds. Text that is not valid UTF-8 is repaired, not refused.
    pub fn from_engine(cell: rusqlite::types::ValueRef<'_>) -> (value: Value)
        ensures
            value == value_of(cell),
    {
        read_cell(cell)
    }
}

/// Tells the variants of `rusqlite::types::ValueRef` apart and moves each payload
/// into the variant of [`Value`] that stands for it; text goes through
/// `String::from_utf8_lossy`. The result is a function of the value alone.
#[verifier::external_body]
fn read_cell(cell: rusqlite::types::ValueRef<'_>) -> (value: Value)
    ensures
        value == value_of(cell),
{
    match cell {
        rusqlite::types::ValueRef::Null => Value::Null,
        rusqlite::types::ValueRef::Integer(v) => Value::Int(v),
        rusqlite::types::ValueRef::Real(v) => Value::Number(Real { cell: rusqlite::types::ValueRef::Real(v) }),
        rusqlite::types::ValueRef::Text(v) => Value::String(String::from_utf8_lossy(v).into_owned()),
        rusqlite::types::ValueRef::Blob(v) => Value::Blob(v.to_vec()),
    }
}

/// Calls `rusqlite::types::ToSqlOutput::from` on an integer: the parameter that
/// stands for the integer.
#[verifier::external_body]
fn bound_integer(v: i64) -> (p: rusqlite::types::ToSqlOutput<'static>)
    ensures
        p == parameter_of(Value::Int(v)),
{
    rusqlite::types::ToSqlOutput::from(v)
}

/// Wraps the engine's value of a real in `rusqlite::types::ToSqlOutput::Borrowed`:
/// the parameter that stands for the real.
#[verifier::external_body]
fn bound_real(number: &Real) -> (p: rusqlite::types::ToSqlOutput<'static>)
    ensures
        p == parameter_of(Value::Number(*number)),
{
    rusqlite::types::ToSqlOutput::Borrowed(number.cell)
}

/// Calls `rusqlite::types::ToSqlOutput::from` on the text of a string: the
/// parameter that stands for the text.
#[verifier::external_body]
fn bound_text<'a>(text: &'a String) -> (p: rusqlite::types::ToSqlOutput<'a>)
    ensures
        p == parameter_of(Value::String(*text)),
{
    rusqlite::types::ToSqlOutput::from(text.as_str())
}

/// Calls `rusqlite::types::ToSqlOutput::from` on the bytes of a vector: the
/// parameter that stands for the blob.
#[verifier::external_body]
fn bound_blob<'a>(bytes: &'a Vec<u8>) -> (p: rusqlite::types::ToSqlOutput<'a>)
    ensures
        p == parameter_of(Value::Blob(*bytes)),
{
    rusqlite::types::ToSqlOutput::from(bytes.as_slice())
}

/// Wraps the engine's null in `rusqlite::types::ToSqlOutput::Owned`: the parameter
/// that stands for null.
#[verifier::external_body]
fn bound_null() -> (p: rusqlite::types::ToSqlOutput<'static>)
    ensures
        p == parameter_of(Value::Null),
{
    rusqlite::types::ToSqlOutput::Owned(rusqlite::types::Value::Null)
}

/// The value as a parameter of a statement: the parameter that stands for it,
/// each kind as the engine's value of the same kind.
pub(crate) fn bind_value<'a>(value: &'a Value) -> (p: rusqlite::types::ToSqlOutput<'a>)
    ensures
        p == parameter_of(*value),
{
    match value {
        Value::Int(v) => bound_integer(*v),
        Value::Number(v) => bound_real(v),
        Value::String(v) => bound_text(v),
        Value::Blob(v) => bound_blob(v),
        Value::Null => bound_null(),
    }
}

/// The values of one row, in column order.
#[derive(Debug, PartialEq)]
pub struct DataRow {
    values: Vec<Value>,
}

impl View for DataRow {
    type V = Seq<Value>;

    closed spec fn view(&self) -> Seq<Value> {
        self.values@
    }
}

impl DataRow {
    pub fn new(values: Vec<Value>) -> (row: DataRow)
        ensures
            row@ == values@,
    {
        DataRow { values }
    }

    pub fn len(&self) -> (n: usize)
        ensures
            n == self@.len(),
    {
        self.values.len()
    }

    pub fn get(&self, i: usize) -> (v: Option<&Value>)
        ensures
            i < self@.len() ==> v == Some(&self@[i as int]),
            i >= self@.len() ==> v is None,
    {
        if i < self.values.len() {
            Some(&self.values[i])
        } else {
            None
        }
    }

    /// The values, in column order.
    pub fn as_ref(&self) -> (values: &Vec<Value>)
        ensures
            values@ == self@,
    {
        &self.values
    }

    /// Gives the values back, in column order.
    pub fn into_values(self) -> (values: Vec<Value>)
        ensures
            values@ == self@,
    {
        self.values
    }

    /// One bound parameter for each value, in column order: the parameter at
    /// each position stands for the value at that position.
    pub(crate) fn bind<'a>(&'a self) -> (bound: Vec<rusqlite::types::ToSqlOutput<'a>>)
        ensures
            bound@.len() == self@.len(),
            forall|i: int| 0 <= i < self@.len() ==> bound@[i] == parameter_of(#[trigger] self@[i]),
    {
        let mut bound: Vec<rusqlite::types::ToSqlOutput<'a>> = Vec::new();
        let mut i: usize = 0;
        while i < self.values.len()
            invariant
                i <= self.values.len(),
                bound@.len() == i,
                forall|k: int| 0 <= k < i ==> bound@[k] == parameter_of(#[trigger] self.values@[k]),
            decreases self.values.len() - i,
        {
            bound.push(bind_value(&self.values[i]));
            i += 1;
        }
        bound
    }
}

/// A value as the host hands it in, sorted by kind. `Other` stands for every
/// kind of value that the database cannot hold.
#[derive(Debug, PartialEq)]
pub enum HostValue {
    Int(i64),
    Number(Real),
    Text(String),
    Bytes(Vec<u8>),
    Nil,
    Other,
}

impl HostValue {
    /// The database value that stands for a value of the host that the database
    /// can hold.
    pub open spec fn value(self) -> Value {
        match self {
            HostValue::Int(v) => Value::Int(v),
            HostValue::Number(v) => Value::Number(v),
            HostValue::Text(v) => Value::String(v),
            HostValue::Bytes(v) => Value::Blob(v),
            HostValue::Nil => Value::Null,
            HostValue::Other => Value::Null,
        }
    }
}

impl DataRow {
    /// Takes the values of the host as the values of a row, in order. A value of
    /// a kind that the database cannot hold is refused, and the whole row with
    /// it: the result is `UnsupportedValue`. Otherwise the row holds, at each
    /// position, the database value that stands for the host's value at that
    /// position.
    pub fn from_host(values: Vec<HostValue>) -> (r: Result<DataRow, InternalError>)
        ensures
            r is Err <==> exists|i: int| 0 <= i < values@.len() && #[trigger] values@[i] is Other,
            r matches Err(e) ==> e == InternalError::UnsupportedValue,
            r matches Ok(row) ==> row@.len() == values@.len() && forall|i: int|
                0 <= i < values@.len() ==> #[trigger] row@[i] == values@[i].value(),
    {
        let ghost given = values@;
        let mut out: Vec<Value> = Vec::new();
        for value in it: values
            invariant
                given == it.seq(),
                out@.len() == it.index(),
                forall|k: int| 0 <= k < it.index() ==> !(#[trigger] given[k] is Other),
                forall|k: int| 0 <= k < it.index() ==> #[trigger] out@[k] == given[k].value(),
        {
            let ghost at = it.index() as int;
            assert(value == given[at]);
            match value {
                HostValue::Int(v) => out.push(Value::Int(v)),
                HostValue::Number(v) => out.push(Value::Number(v)),
                HostValue::Text(v) => out.push(Value::String(v)),
                HostValue::Bytes(v) => out.push(Value::Blob(v)),
                HostValue::Nil => out.push(Value::Null),
                HostValue::Other => {
                    assert(given[at] is Other);
                    return Err(InternalError::UnsupportedValue);
                },
            }
        }
        Ok(DataRow { values: out })
    }
}

impl From<Vec<Value>> for DataRow {
    fn from(value: Vec<Value>) -> (row: DataRow) {
        DataRow { values: value }
    }
}

impl FromSpecImpl<Vec<Value>> for DataRow {
    open spec fn obeys_from_spec() -> bool {
        true
    }

    closed spec fn from_spec(value: Vec<Value>) -> DataRow {
        DataRow { values: value }
    }
}

/// The rows of a result set, in the order the engine produced them.
#[derive(Debug, PartialEq)]
pub struct Rows {
    rows: Vec<DataRow>,
}

impl View for Rows {
    type V = Seq<DataRow>;

    closed spec fn view(&self) -> Seq<DataRow> {
        self.rows@
    }
}

impl Rows {
    pub fn new(rows: Vec<DataRow>) -> (out: Rows)
        ensures
            out@ == rows@,
    {
        Rows { rows }
    }

    pub fn len(&self) -> (n: usize)
        ensures
            n == self@.len(),
    {
        self.rows.len()
    }

    pub fn get(&self, i: usize) -> (row: Option<&DataRow>)
        ensures
            i < self@.len() ==> row == Some(&self@[i as int]),
            i >= self@.len() ==> row is None,
    {
        if i < self.rows.len() {
            Some(&self.rows[i])
        } else {
            None
        }
    }

    /// The rows, in result-set order.
    pub fn as_ref(&self) -> (rows: &Vec<DataRow>)
        ensures
            rows@ == self@,
    {
        &self.rows
    }
}

impl From<Vec<DataRow>> for Rows {
    fn from(value: Vec<DataRow>) -> (rows: Rows) {
        Rows { rows: value }
    }
}

impl FromSpecImpl<Vec<DataRow>> for Rows {
    open spec fn obeys_from_spec() -> bool {
        true
    }

    closed spec fn from_spec(value: Vec<DataRow>) -> Rows {
        Rows { rows: value }
    }
}

/// The column names of a result set, aligned with the values of its rows.
#[derive(Debug, PartialEq)]
pub struct Columns {
    names: Vec<String>,
}

impl View for Columns {
    type V = Seq<String>;

    closed spec fn view(&self) -> Seq<String> {
        self.names@
    }
}

impl Columns {
    pub fn new(names: Vec<String>) -> (out: Columns)
        ensures
            out@ == names@,
    {
        Columns { names }
    }

    pub fn len(&self) -> (n: usize)
        ensures
            n == self@.len(),
    {
        self.names.len()
    }

    /// The names, in column order.
    pub fn as_ref(&self) -> (names: &Vec<String>)
        ensures
            names@ == self@,
    {
        &self.names
    }
}

impl From<Vec<String>> for Columns {
    fn from(value: Vec<String>) -> (columns: Columns) {
        Columns { names: value }
    }
}

impl FromSpecImpl<Vec<String>> for Columns {
    open spec fn obeys_from_spec() -> bool {
        true
    }

    closed spec fn from_spec(value: Vec<String>) -> Columns {
        Columns { names: value }
    }
}

/// What `From` gives is the collection it was given, unchanged and in order.
pub proof fn lemma_from_keeps_order(values: Vec<Value>, rows: Vec<DataRow>, names: Vec<String>)
    ensures
        <DataRow as FromSpec<Vec<Value>>>::from_spec(values)@ == values@,
        <Rows as FromSpec<Vec<DataRow>>>::from_spec(rows)@ == rows@,
        <Columns as FromSpec<Vec<String>>>::from_spec(names)@ == names@,
{
}

} // verus!
