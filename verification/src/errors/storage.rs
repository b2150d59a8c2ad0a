//! Failures of the storage layer, as plain values.

use vstd::prelude::*;

verus! {

/// A failure as the database driver reports it. Nothing in it can be read
/// here but through `describe`; what is read of it is named `reading_of`.
#[verifier::external_type_specification]
#[verifier::external_body]
pub struct ExSqlxError(sqlx::Error);

/// What the layers above read of a failure of the storage layer.
#[derive(Debug)]
pub enum StorageFailure {
    /// The database answered with an error: its SQLSTATE code, where it gave
    /// one, and its message.
    Database { code: Option<String>, message: String },
    /// A query that should have found a row found none.
    RowNotFound,
    /// No connection came free in time.
    PoolTimedOut,
    /// Any other failure, with the text that describes it.
    Other(String),
}

/// A failure of the storage layer, as mathematical values.
pub enum StorageFailureView {
    Database { code: Option<Seq<char>>, message: Seq<char> },
    RowNotFound,
    PoolTimedOut,
    Other(Seq<char>),
}

impl View for StorageFailure {
    type V = StorageFailureView;

    open spec fn view(&self) -> StorageFailureView {
        match *self {
            StorageFailure::Database { code, message } => StorageFailureView::Database {
                code: match code {
                    Some(code) => Some(code@),
                    None => None,
                },
                message: message@,
            },
            StorageFailure::RowNotFound => StorageFailureView::RowNotFound,
            StorageFailure::PoolTimedOut => StorageFailureView::PoolTimedOut,
            StorageFailure::Other(text) => StorageFailureView::Other(text@),
        }
    }
}

/// What `describe` reads of a driver failure: which of the four kinds it
/// is, and for a database error its code and message. The text that comes
/// with a failure of no special kind is not part of it.
pub uninterp spec fn reading_of(error: sqlx::Error) -> StorageFailureView;

/// Whether `failure` is what was read of a driver failure, where `named` is
/// its reading. The kind always agrees, and so do the code and message of a
/// database error. The text of a failure of no special kind is left open: it
/// is put together from the descriptions of the errors underneath, which for
/// errors of the operating system differ from machine to machine.
pub open spec fn same_reading(failure: StorageFailureView, named: StorageFailureView) -> bool {
    match named {
        StorageFailureView::Other(_) => failure is Other,
        _ => failure == named,
    }
}

/// Reads out of a driver failure what the layers above need.
///
/// Trusted: tells the variants of `sqlx::Error` apart and copies out the
/// result of `DatabaseError::code`, of `DatabaseError::message` and, for the
/// variants that are not told apart, of the failure's `Display`. The failure
/// cannot be looked into from here. The contract claims that the kind, and
/// the code and message of a database error, depend on the failure alone:
/// they are named `reading_of`. It claims nothing of what the reading is, and
/// nothing of the text of a failure of no special kind.
#[verifier::external_body]
pub(crate) fn describe(error: &sqlx::Error) -> (failure: StorageFailure)
    ensures
        same_reading(failure@, reading_of(*error)),
{
    match error {
        sqlx::Error::Database(e) => StorageFailure::Database {
            code: e.code().map(|code| code.into_owned()),
            message: e.message().to_string(),
        },
        sqlx::Error::RowNotFound => StorageFailure::RowNotFound,
        sqlx::Error::PoolTimedOut => StorageFailure::PoolTimedOut,
        other => StorageFailure::Other(other.to_string()),
    }
}

} // verus!
