//! Database errors by what a caller can do about them.
use vstd::prelude::*;

verus! {

/// `rusqlite::Error`, what the SQLite driver reports.
#[verifier::external_type_specification]
#[verifier::external_body]
pub struct ExSqliteError(rusqlite::Error);

/// Why a database operation failed.
#[derive(Debug)]
pub enum DbError {
    /// The database or a table was locked: worth another try.
    Busy,
    /// The writer is no longer there.
    WriterGone,
    /// Any other failure, with the driver's message.
    Operation(String),
}

/// A database error with its message as characters.
pub enum DbErrorView {
    /// See [`DbError::Busy`].
    Busy,
    /// See [`DbError::WriterGone`].
    WriterGone,
    /// See [`DbError::Operation`].
    Operation(Seq<char>),
}

impl View for DbError {
    type V = DbErrorView;

    open spec fn view(&self) -> DbErrorView {
        match self {
            DbError::Busy => DbErrorView::Busy,
            DbError::WriterGone => DbErrorView::WriterGone,
            DbError::Operation(message) => DbErrorView::Operation(message@),
        }
    }
}

/// The result codes of SQLite that are told apart.
#[derive(Clone, Copy, Debug, PartialEq, Eq, Structural)]
pub enum SqliteCode {
    /// `SQLITE_BUSY`.
    Busy,
    /// `SQLITE_LOCKED`.
    Locked,
    /// Any other code.
    Other,
}

/// The code of the SQLite call that failed; nothing where no such call is behind the error.
pub uninterp spec fn sqlite_code(error: rusqlite::Error) -> Option<SqliteCode>;

/// The message of a driver error.
pub uninterp spec fn sqlite_message(error: rusqlite::Error) -> Seq<char>;

/// `rusqlite::Error::SqliteFailure` and its `ErrorCode` told apart from the other variants:
/// the result is [`sqlite_code`] of the error.
#[verifier::external_body]
fn failure_code(error: &rusqlite::Error) -> (r: Option<SqliteCode>)
    ensures
        r == sqlite_code(*error),
{
    match error {
        rusqlite::Error::SqliteFailure(inner, _) => match inner.code {
            rusqlite::ErrorCode::DatabaseBusy => Some(SqliteCode::Busy),
            rusqlite::ErrorCode::DatabaseLocked => Some(SqliteCode::Locked),
            _ => Some(SqliteCode::Other),
        },
        _ => None,
    }
}

/// `Display` of `rusqlite::Error`: the text is [`sqlite_message`] of the error.
#[verifier::external_body]
fn failure_message(error: &rusqlite::Error) -> (r: String)
    ensures
        r@ == sqlite_message(*error),
{
    error.to_string()
}

/// The database error for a failure code and a message: busy and locked are worth another
/// try, everything else keeps the message.
pub open spec fn classified(code: Option<SqliteCode>, message: Seq<char>) -> DbErrorView {
    match code {
        Some(SqliteCode::Busy) => DbErrorView::Busy,
        Some(SqliteCode::Locked) => DbErrorView::Busy,
        _ => DbErrorView::Operation(message),
    }
}

/// The database error for a failure code and a message.
pub fn classify_sqlite(code: Option<SqliteCode>, message: String) -> (r: DbError)
    ensures
        r@ == classified(code, message@),
{
    match code {
        Some(SqliteCode::Busy) => DbError::Busy,
        Some(SqliteCode::Locked) => DbError::Busy,
        _ => DbError::Operation(message),
    }
}

/// The database error for what the driver reported.
pub fn map_sqlite(e: rusqlite::Error) -> (r: DbError)
    ensures
        r@ == classified(sqlite_code(e), sqlite_message(e)),
{
    let code: Option<SqliteCode> = failure_code(&e);
    let message: String = failure_message(&e);
    classify_sqlite(code, message)
}

/// A database that is busy and a table that is locked are both worth another try; every other
/// failure, one without a code too, keeps its message.
pub proof fn law_only_locks_are_worth_another_try(code: Option<SqliteCode>, message: Seq<char>)
    ensures
        code == Some(SqliteCode::Busy) ==> classified(code, message) is Busy,
        code == Some(SqliteCode::Locked) ==> classified(code, message) is Busy,
        code != Some(SqliteCode::Busy) && code != Some(SqliteCode::Locked) ==> classified(
            code,
            message,
        ) == DbErrorView::Operation(message),
{
}

} // verus!
