//! Error values of the engine.
//!
//! There are two families. An [`InternalError`] is raised by this library's own
//! rules (an unknown connection id, a transaction that already ended, a task that
//! was canceled before it ran, a value of a kind the database cannot hold, a
//! request in a state that cannot come about). An [`EngineError`] is a failure reported by the
//! SQL engine, kept as plain values: the engine's own classification where it gave
//! one, the kind of failure, and the engine's message.
//!
//! Every error has a numeric code. Internal errors are numbered from
//! [`INTERNAL`]; engine errors keep the engine's classification where there is
//! one and are otherwise numbered from [`RUSQLITE`] by kind.

use vstd::prelude::*;
use vstd::string::*;

verus! {

/// The failure type of the SQL engine. Opaque here: it is turned into an
/// [`EngineError`] as soon as it is received.
#[verifier::external_type_specification]
#[verifier::external_body]
pub struct ExEngineFailure(rusqlite::Error);

/// Base of the codes of internal errors.
pub const INTERNAL: i64 = 10000;

/// Base of the codes of engine errors that carry no classification of the engine.
pub const RUSQLITE: i64 = 12000;

/// The character of a decimal digit.
pub open spec fn digit(d: nat) -> char {
    if d == 0 {
        '0'
    } else if d == 1 {
        '1'
    } else if d == 2 {
        '2'
    } else if d == 3 {
        '3'
    } else if d == 4 {
        '4'
    } else if d == 5 {
        '5'
    } else if d == 6 {
        '6'
    } else if d == 7 {
        '7'
    } else if d == 8 {
        '8'
    } else {
        '9'
    }
}

/// The decimal rendering of a number: its digits from the highest to the lowest,
/// with no sign and no leading zero, and "0" for zero.
pub open spec fn decimal(n: nat) -> Seq<char>
    decreases n,
{
    if n < 10 {
        seq![digit(n)]
    } else {
        decimal(n / 10).push(digit(n % 10))
    }
}

/// The text of one decimal digit.
fn digit_text(d: usize) -> (text: &'static str)
    requires
        d < 10,
    ensures
        text@ == seq![digit(d as nat)],
{
    proof {
        reveal_strlit("0");
        reveal_strlit("1");
        reveal_strlit("2");
        reveal_strlit("3");
        reveal_strlit("4");
        reveal_strlit("5");
        reveal_strlit("6");
        reveal_strlit("7");
        reveal_strlit("8");
        reveal_strlit("9");
    }
    let text = if d == 0 {
        "0"
    } else if d == 1 {
        "1"
    } else if d == 2 {
        "2"
    } else if d == 3 {
        "3"
    } else if d == 4 {
        "4"
    } else if d == 5 {
        "5"
    } else if d == 6 {
        "6"
    } else if d == 7 {
        "7"
    } else if d == 8 {
        "8"
    } else {
        "9"
    };
    assert(text@ =~= seq![digit(d as nat)]);
    text
}

/// Renders a number in decimal.
pub fn render_decimal(n: usize) -> (text: String)
    ensures
        text@ == decimal(n as nat),
    decreases n,
{
    if n < 10 {
        digit_text(n).to_string()
    } else {
        let mut text = render_decimal(n / 10);
        text.append(digit_text(n % 10));
        proof {
            assert(text@ =~= decimal((n / 10) as nat).push(digit((n % 10) as nat)));
        }
        text
    }
}

/// A failure raised by the library's own rules.
#[derive(Debug, Clone, Copy, PartialEq, Eq, Structural)]
pub enum InternalError {
    /// No live connection has this id.
    InvalidConnection(usize),
    /// The transaction was already committed or rolled back.
    InvalidTransaction,
    /// The task was canceled before the worker started on it.
    TaskCanceled,
    /// A value of a kind that the database cannot hold was handed in.
    UnsupportedValue,
    /// A request arrived in a state that cannot come about, such as a step of a
    /// backup that has no cursor.
    Unreachable,
}

impl InternalError {
    /// The code of this error: `INTERNAL` plus 1 to 5.
    pub open spec fn spec_code(self) -> int {
        INTERNAL + match self {
            InternalError::InvalidConnection(_) => 1int,
            InternalError::InvalidTransaction => 2int,
            InternalError::TaskCanceled => 3int,
            InternalError::UnsupportedValue => 4int,
            InternalError::Unreachable => 5int,
        }
    }

    /// The message of this error. That of an invalid connection ends in the id,
    /// in decimal.
    pub open spec fn spec_message(self) -> Seq<char> {
        match self {
            InternalError::InvalidConnection(id) => "invalid connection id: "@ + decimal(
                id as nat,
            ),
            InternalError::InvalidTransaction => "invalid transaction"@,
            InternalError::TaskCanceled => "task canceled"@,
            InternalError::UnsupportedValue => "unsupported value type"@,
            InternalError::Unreachable => "unreachable state"@,
        }
    }

    pub fn code(&self) -> (c: i64)
        ensures
            c == self.spec_code(),
    {
        match self {
            InternalError::InvalidConnection(_) => INTERNAL + 1,
            InternalError::InvalidTransaction => INTERNAL + 2,
            InternalError::TaskCanceled => INTERNAL + 3,
            InternalError::UnsupportedValue => INTERNAL + 4,
            InternalError::Unreachable => INTERNAL + 5,
        }
    }

    /// The human-readable message. For an invalid connection it ends in the id,
    /// in decimal.
    pub fn message(&self) -> (m: String)
        ensures
            m@ == self.spec_message(),
    {
        match self {
            InternalError::InvalidConnection(id) => {
                let digits = render_decimal(*id);
                let mut m = "invalid connection id: ".to_string();
                m.append(digits.as_str());
                m
            },
            InternalError::InvalidTransaction => "invalid transaction".to_string(),
            InternalError::TaskCanceled => "task canceled".to_string(),
            InternalError::UnsupportedValue => "unsupported value type".to_string(),
            InternalError::Unreachable => "unreachable state".to_string(),
        }
    }
}

/// The kind of an engine failure, one per kind the engine distinguishes.
#[derive(Debug, Clone, Copy, PartialEq, Eq, Structural)]
pub enum EngineFault {
    SqliteFailure,
    SqliteSingleThreadedMode,
    FromSqlConversionFailure,
    IntegralValueOutOfRange,
    Utf8Error,
    NulError,
    InvalidParameterName,
    InvalidPath,
    ExecuteReturnedResults,
    QueryReturnedNoRows,
    QueryReturnedMoreThanOneRow,
    InvalidColumnIndex,
    InvalidColumnName,
    InvalidColumnType,
    StatementChangedRows,
    ToSqlConversionFailure,
    InvalidQuery,
    UnwindingPanic,
    MultipleStatement,
    InvalidParameterCount,
    SqlInputError,
    InvalidDatabaseIndex,
    /// A kind this library has no number for.
    Other,
}

impl EngineFault {
    /// The position of this kind in the classification table; 999 for `Other`.
    pub open spec fn index(self) -> int {
        match self {
            EngineFault::SqliteFailure => 1,
            EngineFault::SqliteSingleThreadedMode => 2,
            EngineFault::FromSqlConversionFailure => 3,
            EngineFault::IntegralValueOutOfRange => 4,
            EngineFault::Utf8Error => 5,
            EngineFault::NulError => 6,
            EngineFault::InvalidParameterName => 7,
            EngineFault::InvalidPath => 8,
            EngineFault::ExecuteReturnedResults => 9,
            EngineFault::QueryReturnedNoRows => 10,
            EngineFault::QueryReturnedMoreThanOneRow => 11,
            EngineFault::InvalidColumnIndex => 12,
            EngineFault::InvalidColumnName => 13,
            EngineFault::InvalidColumnType => 14,
            EngineFault::StatementChangedRows => 15,
            EngineFault::ToSqlConversionFailure => 16,
            EngineFault::InvalidQuery => 17,
            EngineFault::UnwindingPanic => 18,
            EngineFault::MultipleStatement => 19,
            EngineFault::InvalidParameterCount => 20,
            EngineFault::SqlInputError => 21,
            EngineFault::InvalidDatabaseIndex => 22,
            EngineFault::Other => 999,
        }
    }

    /// Whether this kind is one of the first eight of the table.
    pub open spec fn is_early(self) -> bool {
        1 <= self.index() <= 8
    }

    /// Whether this kind is one of the ninth to the fifteenth of the table.
    pub open spec fn is_middle(self) -> bool {
        9 <= self.index() <= 15
    }

    /// Whether this kind is one of the sixteenth to the last of the table.
    pub open spec fn is_late(self) -> bool {
        16 <= self.index() <= 22
    }

    /// The kind that three partial readings of a failure add up to: the first
    /// that found one, or `Other` if none did.
    pub open spec fn first_of(
        early: Option<EngineFault>,
        middle: Option<EngineFault>,
        late: Option<EngineFault>,
    ) -> EngineFault {
        match early {
            Some(f) => f,
            None => match middle {
                Some(f) => f,
                None => match late {
                    Some(f) => f,
                    None => EngineFault::Other,
                },
            },
        }
    }

    /// Puts three partial readings of a failure together: see [`Self::first_of`].
    pub fn classify(
        early: Option<EngineFault>,
        middle: Option<EngineFault>,
        late: Option<EngineFault>,
    ) -> (fault: EngineFault)
        ensures
            fault == Self::first_of(early, middle, late),
    {
        match early {
            Some(f) => f,
            None => match middle {
                Some(f) => f,
                None => match late {
                    Some(f) => f,
                    None => EngineFault::Other,
                },
            },
        }
    }

    pub fn table_index(&self) -> (i: i64)
        ensures
            i == self.index(),
    {
        match self {
            EngineFault::SqliteFailure => 1,
            EngineFault::SqliteSingleThreadedMode => 2,
            EngineFault::FromSqlConversionFailure => 3,
            EngineFault::IntegralValueOutOfRange => 4,
            EngineFault::Utf8Error => 5,
            EngineFault::NulError => 6,
            EngineFault::InvalidParameterName => 7,
            EngineFault::InvalidPath => 8,
            EngineFault::ExecuteReturnedResults => 9,
            EngineFault::QueryReturnedNoRows => 10,
            EngineFault::QueryReturnedMoreThanOneRow => 11,
            EngineFault::InvalidColumnIndex => 12,
            EngineFault::InvalidColumnName => 13,
            EngineFault::InvalidColumnType => 14,
            EngineFault::StatementChangedRows => 15,
            EngineFault::ToSqlConversionFailure => 16,
            EngineFault::InvalidQuery => 17,
            EngineFault::UnwindingPanic => 18,
            EngineFault::MultipleStatement => 19,
            EngineFault::InvalidParameterCount => 20,
            EngineFault::SqlInputError => 21,
            EngineFault::InvalidDatabaseIndex => 22,
            EngineFault::Other => 999,
        }
    }
}

/// The engine's own classification of a failure, where it gave one: the
/// position of the classification among the engine's classifications.
pub uninterp spec fn native_of(failure: rusqlite::Error) -> Option<i64>;

/// The kind of a failure: the variant of the engine's error type that it is, or
/// `Other` for a variant that this library has no number for.
pub uninterp spec fn kind_of(failure: rusqlite::Error) -> EngineFault;

/// The numeric code of a failure of the engine: its own classification where it
/// gave one, else `RUSQLITE` plus the position of its kind in the table.
pub open spec fn engine_code(failure: rusqlite::Error) -> int {
    match native_of(failure) {
        Some(c) => c as int,
        None => RUSQLITE + kind_of(failure).index(),
    }
}

/// A failure reported by the SQL engine, as plain values.
#[derive(Debug)]
pub struct EngineError {
    /// The engine's own classification of the failure, where it gave one.
    pub native: Option<i64>,
    /// The kind of failure.
    pub fault: EngineFault,
    /// The engine's message.
    pub message: String,
}

impl EngineError {
    /// The engine's classification where there is one, else `RUSQLITE` plus the
    /// position of the kind in the table.
    pub open spec fn spec_code(&self) -> int {
        match self.native {
            Some(c) => c as int,
            None => RUSQLITE + self.fault.index(),
        }
    }

    pub fn code(&self) -> (c: i64)
        ensures
            c == self.spec_code(),
    {
        match self.native {
            Some(c) => c,
            None => RUSQLITE + self.fault.table_index(),
        }
    }

    /// Whether the classification, if there is one, is a position among the
    /// engine's classifications: not negative and below `INTERNAL`. Every error
    /// that was read from a failure of the engine is so.
    pub open spec fn classified(&self) -> bool {
        self.native matches Some(c) ==> 0 <= c < INTERNAL
    }

    /// Whether this is what the failure holds: its classification and its kind.
    /// The message is the engine's text for the failure.
    pub open spec fn reports(&self, failure: rusqlite::Error) -> bool {
        self.native == native_of(failure) && self.fault == kind_of(failure) && self.classified()
    }

    /// Takes a failure of the engine apart into plain values: the engine's
    /// classification of it, its kind, and the engine's text for it.
    pub fn from_engine(failure: rusqlite::Error) -> (e: EngineError)
        ensures
            e.reports(failure),
            e.spec_code() == engine_code(failure),
    {
        let native = native_classification(&failure);
        let early = early_fault(&failure);
        let middle = middle_fault(&failure);
        let late = late_fault(&failure);
        let fault = EngineFault::classify(early, middle, late);
        let message = failure_text(&failure);
        EngineError { native, fault, message }
    }
}

/// Calls `rusqlite::Error::sqlite_error_code` and hands back the position of the
/// classification among the engine's classifications. The answer is a function
/// of the failure alone, and the engine has fewer classifications than
/// `INTERNAL`, so a position is below it.
#[verifier::external_body]
fn native_classification(failure: &rusqlite::Error) -> (native: Option<i64>)
    ensures
        native == native_of(*failure),
        native matches Some(c) ==> 0 <= c < INTERNAL,
{
    failure.sqlite_error_code().map(|c| c as i64)
}

/// Calls the `Display` of `rusqlite::Error`. Nothing is claimed of the text.
#[verifier::external_body]
fn failure_text(failure: &rusqlite::Error) -> String {
    failure.to_string()
}

/// Tells the first eight variants of `rusqlite::Error` apart, `None` for the
/// rest: the kind of the failure if it is one of the first eight of the table.
#[verifier::external_body]
fn early_fault(failure: &rusqlite::Error) -> (fault: Option<EngineFault>)
    ensures
        fault == (if kind_of(*failure).is_early() {
            Some(kind_of(*failure))
        } else {
            None
        }),
{
    match failure {
        rusqlite::Error::SqliteFailure(_, _) => Some(EngineFault::SqliteFailure),
        rusqlite::Error::SqliteSingleThreadedMode => Some(EngineFault::SqliteSingleThreadedMode),
        rusqlite::Error::FromSqlConversionFailure(_, _, _) => Some(EngineFault::FromSqlConversionFailure),
        rusqlite::Error::IntegralValueOutOfRange(_, _) => Some(EngineFault::IntegralValueOutOfRange),
        rusqlite::Error::Utf8Error(_, _) => Some(EngineFault::Utf8Error),
        rusqlite::Error::NulError(_) => Some(EngineFault::NulError),
        rusqlite::Error::InvalidParameterName(_) => Some(EngineFault::InvalidParameterName),
        rusqlite::Error::InvalidPath(_) => Some(EngineFault::InvalidPath),
        _ => None,
    }
}

/// Tells the next seven variants of `rusqlite::Error` apart, `None` for the
/// rest: the kind of the failure if it is one of the ninth to the fifteenth of
/// the table.
#[verifier::external_body]
fn middle_fault(failure: &rusqlite::Error) -> (fault: Option<EngineFault>)
    ensures
        fault == (if kind_of(*failure).is_middle() {
            Some(kind_of(*failure))
        } else {
            None
        }),
{
    match failure {
        rusqlite::Error::ExecuteReturnedResults => Some(EngineFault::ExecuteReturnedResults),
        rusqlite::Error::QueryReturnedNoRows => Some(EngineFault::QueryReturnedNoRows),
        rusqlite::Error::QueryReturnedMoreThanOneRow => Some(EngineFault::QueryReturnedMoreThanOneRow),
        rusqlite::Error::InvalidColumnIndex(_) => Some(EngineFault::InvalidColumnIndex),
        rusqlite::Error::InvalidColumnName(_) => Some(EngineFault::InvalidColumnName),
        rusqlite::Error::InvalidColumnType(_, _, _) => Some(EngineFault::InvalidColumnType),
        rusqlite::Error::StatementChangedRows(_) => Some(EngineFault::StatementChangedRows),
        _ => None,
    }
}

/// Tells the last seven numbered variants of `rusqlite::Error` apart, `None` for
/// the rest: the kind of the failure if it is one of the sixteenth to the last
/// of the table.
#[verifier::external_body]
fn late_fault(failure: &rusqlite::Error) -> (fault: Option<EngineFault>)
    ensures
        fault == (if kind_of(*failure).is_late() {
            Some(kind_of(*failure))
        } else {
            None
        }),
{
    match failure {
        rusqlite::Error::ToSqlConversionFailure(_) => Some(EngineFault::ToSqlConversionFailure),
        rusqlite::Error::InvalidQuery => Some(EngineFault::InvalidQuery),
        rusqlite::Error::UnwindingPanic => Some(EngineFault::UnwindingPanic),
        rusqlite::Error::MultipleStatement => Some(EngineFault::MultipleStatement),
        rusqlite::Error::InvalidParameterCount(_, _) => Some(EngineFault::InvalidParameterCount),
        rusqlite::Error::SqlInputError { .. } => Some(EngineFault::SqlInputError),
        rusqlite::Error::InvalidDatabaseIndex(_) => Some(EngineFault::InvalidDatabaseIndex),
        _ => None,
    }
}

/// Any failure of an operation.
#[derive(Debug)]
pub enum AsletError {
    Internal(InternalError),
    Sqlite(EngineError),
}

impl AsletError {
    /// The numeric code of the error.
    pub open spec fn spec_code(&self) -> int {
        match self {
            AsletError::Internal(e) => e.spec_code(),
            AsletError::Sqlite(e) => e.spec_code(),
        }
    }

    pub fn code(&self) -> (c: i64)
        ensures
            c == self.spec_code(),
    {
        match self {
            AsletError::Internal(e) => e.code(),
            AsletError::Sqlite(e) => e.code(),
        }
    }

    /// Whether `text` is the human-readable message of this error: the message of
    /// the internal error, or the engine's own message.
    pub open spec fn has_message(&self, text: Seq<char>) -> bool {
        match *self {
            AsletError::Internal(e) => text == e.spec_message(),
            AsletError::Sqlite(e) => text == e.message@,
        }
    }

    pub fn message(&self) -> (m: String)
        ensures
            self.has_message(m@),
    {
        match self {
            AsletError::Internal(e) => e.message(),
            AsletError::Sqlite(e) => e.message.clone(),
        }
    }

    /// Whether this is an error of the engine: the error that stands for some
    /// failure that the engine reported. Its classification, if it has one, is
    /// then one of the engine's.
    pub open spec fn is_engine(&self) -> bool {
        exists|failure: rusqlite::Error| #[trigger] self.stands_for(failure)
    }

    /// Whether this is the error for the failure of the engine: an engine error
    /// that holds the failure's classification and kind.
    pub open spec fn stands_for(&self, failure: rusqlite::Error) -> bool {
        *self matches AsletError::Sqlite(e) && e.reports(failure)
    }

    /// Wraps a failure of the engine: the error is an engine error with the
    /// failure's classification and kind, so its code is the failure's code.
    pub fn engine(failure: rusqlite::Error) -> (e: AsletError)
        ensures
            e.is_engine(),
            e.stands_for(failure),
            e.spec_code() == engine_code(failure),
    {
        let ghost reported = failure;
        let e = AsletError::Sqlite(EngineError::from_engine(failure));
        proof {
            assert(e.stands_for(reported));
        }
        e
    }

    /// Settles an answer of the engine: what it gave is kept as it is, and a
    /// failure becomes the error that stands for it.
    pub fn settle<T>(answer: Result<T, rusqlite::Error>) -> (r: Result<T, AsletError>)
        ensures
            match answer {
                Ok(given) => r == Ok::<T, AsletError>(given),
                Err(failure) => r matches Err(e) && e.stands_for(failure),
            },
    {
        match answer {
            Ok(given) => Ok(given),
            Err(failure) => Err(AsletError::engine(failure)),
        }
    }

    /// Wraps an internal error.
    pub fn internal(error: InternalError) -> (e: AsletError)
        ensures
            e == AsletError::Internal(error),
    {
        AsletError::Internal(error)
    }
}

/// The codes of the two families never meet. The code of an internal error is
/// one of 10001 to 10005. The code of an error of the engine is the engine's
/// classification, which is below 10000, or lies in the table above 12000; so it
/// is none of the internal codes, and an error with a classification has that
/// classification as its code and nothing else.
pub proof fn lemma_codes_apart(e: AsletError)
    ensures
        e is Internal ==> INTERNAL < e.spec_code() <= INTERNAL + 5,
        e.is_engine() ==> (0 <= e.spec_code() < INTERNAL) || (RUSQLITE < e.spec_code() <= RUSQLITE
            + 999),
        e.is_engine() ==> e.spec_code() != 10001 && e.spec_code() != 10002 && e.spec_code()
            != 10003,
        e matches AsletError::Sqlite(x) ==> (x.native matches Some(c) ==> e.spec_code() == c),
{
}

} // verus!
