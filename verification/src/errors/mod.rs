//! The failures of each layer and how they are handed upward: a failure of
//! the storage layer becomes a failure of the domain, and either becomes a
//! failure that the transport layer answers with a status and a body.

pub mod laws;
pub mod response;
pub mod storage;

use vstd::prelude::*;
use vstd::std_specs::convert::FromSpecImpl;
use crate::domain::model::error::DomainError;
use crate::domain::model::error::DomainErrorView;
use crate::errors::response::ErrorResponse;
use crate::errors::storage::describe;
use crate::errors::storage::reading_of;
use crate::errors::storage::same_reading;
use crate::errors::storage::StorageFailure;
use crate::errors::storage::StorageFailureView;

verus! {

/// The SQLSTATE code of a violated unique constraint.
pub const UNIQUE_VIOLATION: &'static str = "23505";

/// The SQLSTATE code of a violated foreign key.
pub const FOREIGN_KEY_VIOLATION: &'static str = "23503";

/// A failure of the storage layer, by kind.
#[derive(Debug)]
pub enum DatabaseError {
    Connection(String),
    Query(String),
    Duplicate(String),
    NotFound(String),
    Other(String),
}

/// A failure of the storage layer by kind, as mathematical values.
pub enum DatabaseErrorView {
    Connection(Seq<char>),
    Query(Seq<char>),
    Duplicate(Seq<char>),
    NotFound(Seq<char>),
    Other(Seq<char>),
}

impl DatabaseErrorView {
    /// The kind of a failure of the storage layer. A database error is told
    /// by its code: a violated unique constraint is a duplicate, a violated
    /// foreign key and every other code a failed query, and one without a
    /// code is of no special kind.
    pub open spec fn of_failure(failure: StorageFailureView) -> DatabaseErrorView {
        match failure {
            StorageFailureView::Database { code: Some(code), message } => {
                if code == UNIQUE_VIOLATION@ {
                    DatabaseErrorView::Duplicate(message)
                } else if code == FOREIGN_KEY_VIOLATION@ {
                    DatabaseErrorView::Query("Foreign key violation: "@ + message)
                } else {
                    DatabaseErrorView::Query(message)
                }
            },
            StorageFailureView::Database { code: None, message } => DatabaseErrorView::Other(
                message,
            ),
            StorageFailureView::RowNotFound => DatabaseErrorView::NotFound(
                "Requested data not found"@,
            ),
            StorageFailureView::PoolTimedOut => DatabaseErrorView::Connection(
                "Database connection pool timeout"@,
            ),
            StorageFailureView::Other(text) => DatabaseErrorView::Other(text),
        }
    }

    /// The detail that the failure carries.
    pub open spec fn detail(self) -> Seq<char> {
        match self {
            DatabaseErrorView::Connection(detail) => detail,
            DatabaseErrorView::Query(detail) => detail,
            DatabaseErrorView::Duplicate(detail) => detail,
            DatabaseErrorView::NotFound(detail) => detail,
            DatabaseErrorView::Other(detail) => detail,
        }
    }

    /// The text that describes the failure.
    pub open spec fn display(self) -> Seq<char> {
        match self {
            DatabaseErrorView::Connection(detail) => "Connection error: "@ + detail,
            DatabaseErrorView::Query(detail) => "Query error: "@ + detail,
            DatabaseErrorView::Duplicate(detail) => "Duplicate data: "@ + detail,
            DatabaseErrorView::NotFound(detail) => "Data not found: "@ + detail,
            DatabaseErrorView::Other(detail) => "Other database error: "@ + detail,
        }
    }

    /// The failure of the domain that a failure of the storage layer becomes:
    /// always a failure to save. Missing and duplicate data are tagged; every
    /// other kind is described in full.
    pub open spec fn to_domain(self) -> DomainErrorView {
        match self {
            DatabaseErrorView::NotFound(detail) => DomainErrorView::SaveError(
                "Not found:"@ + detail,
            ),
            DatabaseErrorView::Duplicate(detail) => DomainErrorView::SaveError(
                "Duplicate:"@ + detail,
            ),
            _ => DomainErrorView::SaveError(self.display()),
        }
    }
}

impl View for DatabaseError {
    type V = DatabaseErrorView;

    open spec fn view(&self) -> DatabaseErrorView {
        match *self {
            DatabaseError::Connection(detail) => DatabaseErrorView::Connection(detail@),
            DatabaseError::Query(detail) => DatabaseErrorView::Query(detail@),
            DatabaseError::Duplicate(detail) => DatabaseErrorView::Duplicate(detail@),
            DatabaseError::NotFound(detail) => DatabaseErrorView::NotFound(detail@),
            DatabaseError::Other(detail) => DatabaseErrorView::Other(detail@),
        }
    }
}

impl DatabaseError {
    /// The kind of a failure of the storage layer.
    pub fn from_failure(failure: StorageFailure) -> (r: DatabaseError)
        ensures
            r@ == DatabaseErrorView::of_failure(failure@),
    {
        match failure {
            StorageFailure::Database { code: Some(code), message } => {
                if code == UNIQUE_VIOLATION.to_string() {
                    DatabaseError::Duplicate(message)
                } else if code == FOREIGN_KEY_VIOLATION.to_string() {
                    DatabaseError::Query(
                        "Foreign key violation: ".to_string().concat(message.as_str()),
                    )
                } else {
                    DatabaseError::Query(message)
                }
            },
            StorageFailure::Database { code: None, message } => DatabaseError::Other(message),
            StorageFailure::RowNotFound => DatabaseError::NotFound(
                "Requested data not found".to_string(),
            ),
            StorageFailure::PoolTimedOut => DatabaseError::Connection(
                "Database connection pool timeout".to_string(),
            ),
            StorageFailure::Other(text) => DatabaseError::Other(text),
        }
    }

    /// The text that describes the failure.
    pub fn to_string(&self) -> (text: String)
        ensures
            text@ == self@.display(),
    {
        match self {
            DatabaseError::Connection(detail) => "Connection error: ".to_string().concat(
                detail.as_str(),
            ),
            DatabaseError::Query(detail) => "Query error: ".to_string().concat(detail.as_str()),
            DatabaseError::Duplicate(detail) => "Duplicate data: ".to_string().concat(
                detail.as_str(),
            ),
            DatabaseError::NotFound(detail) => "Data not found: ".to_string().concat(
                detail.as_str(),
            ),
            DatabaseError::Other(detail) => "Other database error: ".to_string().concat(
                detail.as_str(),
            ),
        }
    }
}

impl From<sqlx::Error> for DatabaseError {
    /// The kind of a failure that the database driver reports: the kind of
    /// what is read of this failure.
    fn from(error: sqlx::Error) -> (r: DatabaseError)
        ensures
            exists|failure: StorageFailureView|
                same_reading(failure, reading_of(error)) && r@
                    == #[trigger] DatabaseErrorView::of_failure(failure),
    {
        DatabaseError::from_failure(describe(&error))
    }
}

impl FromSpecImpl<sqlx::Error> for DatabaseError {
    open spec fn obeys_from_spec() -> bool {
        false
    }

    open spec fn from_spec(error: sqlx::Error) -> DatabaseError {
        arbitrary()
    }
}

impl From<DatabaseError> for DomainError {
    /// The failure of the domain that a failure of the storage layer becomes.
    fn from(error: DatabaseError) -> (r: DomainError)
        ensures
            r@ == error@.to_domain(),
    {
        match error {
            DatabaseError::NotFound(detail) => DomainError::SaveError(
                "Not found:".to_string().concat(detail.as_str()),
            ),
            DatabaseError::Duplicate(detail) => DomainError::SaveError(
                "Duplicate:".to_string().concat(detail.as_str()),
            ),
            other => DomainError::SaveError(other.to_string()),
        }
    }
}

impl FromSpecImpl<DatabaseError> for DomainError {
    open spec fn obeys_from_spec() -> bool {
        false
    }

    open spec fn from_spec(error: DatabaseError) -> DomainError {
        arbitrary()
    }
}

impl From<sqlx::Error> for DomainError {
    /// The failure of the domain that a failure reported by the database
    /// driver becomes.
    fn from(error: sqlx::Error) -> (r: DomainError)
        ensures
            exists|failure: StorageFailureView|
                same_reading(failure, reading_of(error)) && r@ == (
                #[trigger] DatabaseErrorView::of_failure(failure)).to_domain(),
            r is SaveError,
    {
        let db_error = DatabaseError::from(error);
        DomainError::from(db_error)
    }
}

impl FromSpecImpl<sqlx::Error> for DomainError {
    open spec fn obeys_from_spec() -> bool {
        false
    }

    open spec fn from_spec(error: sqlx::Error) -> DomainError {
        arbitrary()
    }
}

/// A failure as the transport layer sees it.
#[derive(Debug)]
pub enum AppError {
    Domain(DomainError),
    Database(DatabaseError),
    ExternalService(String),
    Validation(String),
    Authentication(String),
    Authorization(String),
    Other(String),
}

/// A failure of the transport layer, as mathematical values.
pub enum AppErrorView {
    Domain(DomainErrorView),
    Database(DatabaseErrorView),
    ExternalService(Seq<char>),
    Validation(Seq<char>),
    Authentication(Seq<char>),
    Authorization(Seq<char>),
    Other(Seq<char>),
}

impl AppErrorView {
    /// The text that describes the failure.
    pub open spec fn display(self) -> Seq<char> {
        match self {
            AppErrorView::Domain(error) => "Domain error: "@ + error.display(),
            AppErrorView::Database(error) => "Database error: "@ + error.display(),
            AppErrorView::ExternalService(detail) => "External service error: "@ + detail,
            AppErrorView::Validation(detail) => "Validation error: "@ + detail,
            AppErrorView::Authentication(detail) => "Authentication error: "@ + detail,
            AppErrorView::Authorization(detail) => "Authorization error: "@ + detail,
            AppErrorView::Other(detail) => "Other error: "@ + detail,
        }
    }

    /// The HTTP status with which the failure is answered.
    pub open spec fn status(self) -> u16 {
        match self {
            AppErrorView::Domain(_) => 400,
            AppErrorView::Database(DatabaseErrorView::NotFound(_)) => 404,
            AppErrorView::Database(DatabaseErrorView::Duplicate(_)) => 409,
            AppErrorView::Database(DatabaseErrorView::Query(_)) => 400,
            AppErrorView::Database(DatabaseErrorView::Connection(_)) => 503,
            AppErrorView::Database(DatabaseErrorView::Other(_)) => 500,
            AppErrorView::Validation(_) => 400,
            AppErrorView::Authentication(_) => 401,
            AppErrorView::Authorization(_) => 403,
            AppErrorView::ExternalService(_) => 502,
            AppErrorView::Other(_) => 500,
        }
    }

    /// The label of the kind of failure in the answer.
    pub open spec fn error_type(self) -> Seq<char> {
        match self {
            AppErrorView::Domain(DomainErrorView::SaveError(_)) => "Save error"@,
            AppErrorView::Domain(DomainErrorView::DeleteError(_)) => "Delete error"@,
            AppErrorView::Database(DatabaseErrorView::NotFound(_)) => "Not found"@,
            AppErrorView::Database(DatabaseErrorView::Duplicate(_)) => "Duplicate data"@,
            AppErrorView::Database(DatabaseErrorView::Query(_)) => "Query error"@,
            AppErrorView::Database(DatabaseErrorView::Connection(_)) => "Database connection error"@,
            AppErrorView::Database(DatabaseErrorView::Other(_)) => "Database error"@,
            AppErrorView::Validation(_) => "Validation error"@,
            AppErrorView::Authentication(_) => "Authentication error"@,
            AppErrorView::Authorization(_) => "Authorization error"@,
            AppErrorView::ExternalService(_) => "External service error"@,
            AppErrorView::Other(_) => "Internal server error"@,
        }
    }

    /// The detail of the failure in the answer.
    pub open spec fn message(self) -> Seq<char> {
        match self {
            AppErrorView::Domain(DomainErrorView::SaveError(detail)) => detail,
            AppErrorView::Domain(DomainErrorView::DeleteError(detail)) => detail,
            AppErrorView::Database(error) => error.detail(),
            AppErrorView::Validation(detail) => detail,
            AppErrorView::Authentication(detail) => detail,
            AppErrorView::Authorization(detail) => detail,
            AppErrorView::ExternalService(detail) => detail,
            AppErrorView::Other(detail) => detail,
        }
    }
}

impl View for AppError {
    type V = AppErrorView;

    open spec fn view(&self) -> AppErrorView {
        match *self {
            AppError::Domain(error) => AppErrorView::Domain(error@),
            AppError::Database(error) => AppErrorView::Database(error@),
            AppError::ExternalService(detail) => AppErrorView::ExternalService(detail@),
            AppError::Validation(detail) => AppErrorView::Validation(detail@),
            AppError::Authentication(detail) => AppErrorView::Authentication(detail@),
            AppError::Authorization(detail) => AppErrorView::Authorization(detail@),
            AppError::Other(detail) => AppErrorView::Other(detail@),
        }
    }
}

impl AppError {
    /// The text that describes the failure.
    pub fn to_string(&self) -> (text: String)
        ensures
            text@ == self@.display(),
    {
        match self {
            AppError::Domain(error) => "Domain error: ".to_string().concat(
                error.to_string().as_str(),
            ),
            AppError::Database(error) => "Database error: ".to_string().concat(
                error.to_string().as_str(),
            ),
            AppError::ExternalService(detail) => "External service error: ".to_string().concat(
                detail.as_str(),
            ),
            AppError::Validation(detail) => "Validation error: ".to_string().concat(
                detail.as_str(),
            ),
            AppError::Authentication(detail) => "Authentication error: ".to_string().concat(
                detail.as_str(),
            ),
            AppError::Authorization(detail) => "Authorization error: ".to_string().concat(
                detail.as_str(),
            ),
            AppError::Other(detail) => "Other error: ".to_string().concat(detail.as_str()),
        }
    }

    /// The HTTP status with which the failure is answered.
    pub fn status_code(&self) -> (status: u16)
        ensures
            status == self@.status(),
    {
        match self {
            AppError::Domain(_) => 400,
            AppError::Database(DatabaseError::NotFound(_)) => 404,
            AppError::Database(DatabaseError::Duplicate(_)) => 409,
            AppError::Database(DatabaseError::Query(_)) => 400,
            AppError::Database(DatabaseError::Connection(_)) => 503,
            AppError::Database(DatabaseError::Other(_)) => 500,
            AppError::Validation(_) => 400,
            AppError::Authentication(_) => 401,
            AppError::Authorization(_) => 403,
            AppError::ExternalService(_) => 502,
            AppError::Other(_) => 500,
        }
    }

    /// The label of the kind of failure in the answer.
    pub fn error_type(&self) -> (label: &'static str)
        ensures
            label@ == self@.error_type(),
    {
        match self {
            AppError::Domain(DomainError::SaveError(_)) => "Save error",
            AppError::Domain(DomainError::DeleteError(_)) => "Delete error",
            AppError::Database(DatabaseError::NotFound(_)) => "Not found",
            AppError::Database(DatabaseError::Duplicate(_)) => "Duplicate data",
            AppError::Database(DatabaseError::Query(_)) => "Query error",
            AppError::Database(DatabaseError::Connection(_)) => "Database connection error",
            AppError::Database(DatabaseError::Other(_)) => "Database error",
            AppError::Validation(_) => "Validation error",
            AppError::Authentication(_) => "Authentication error",
            AppError::Authorization(_) => "Authorization error",
            AppError::ExternalService(_) => "External service error",
            AppError::Other(_) => "Internal server error",
        }
    }

    /// The detail of the failure in the answer.
    pub fn message(&self) -> (detail: &str)
        ensures
            detail@ == self@.message(),
    {
        match self {
            AppError::Domain(DomainError::SaveError(detail)) => detail.as_str(),
            AppError::Domain(DomainError::DeleteError(detail)) => detail.as_str(),
            AppError::Database(DatabaseError::NotFound(detail)) => detail.as_str(),
            AppError::Database(DatabaseError::Duplicate(detail)) => detail.as_str(),
            AppError::Database(DatabaseError::Query(detail)) => detail.as_str(),
            AppError::Database(DatabaseError::Connection(detail)) => detail.as_str(),
            AppError::Database(DatabaseError::Other(detail)) => detail.as_str(),
            AppError::Validation(detail) => detail.as_str(),
            AppError::Authentication(detail) => detail.as_str(),
            AppError::Authorization(detail) => detail.as_str(),
            AppError::ExternalService(detail) => detail.as_str(),
            AppError::Other(detail) => detail.as_str(),
        }
    }

    /// The answer of the transport layer to the failure: status, label and
    /// detail.
    pub fn error_response(&self) -> (response: ErrorResponse)
        ensures
            response.status == self@.status(),
            response.error_type@ == self@.error_type(),
            response.message@ == self@.message(),
    {
        ErrorResponse {
            status: self.status_code(),
            error_type: self.error_type().to_string(),
            message: self.message().to_string(),
        }
    }
}

impl From<DatabaseError> for AppError {
    fn from(error: DatabaseError) -> (r: AppError)
        ensures
            r@ == AppErrorView::Database(error@),
    {
        AppError::Database(error)
    }
}

impl FromSpecImpl<DatabaseError> for AppError {
    open spec fn obeys_from_spec() -> bool {
        true
    }

    open spec fn from_spec(error: DatabaseError) -> AppError {
        AppError::Database(error)
    }
}

impl From<sqlx::Error> for AppError {
    /// The failure of the transport layer that a failure reported by the
    /// database driver becomes.
    fn from(error: sqlx::Error) -> (r: AppError)
        ensures
            exists|failure: StorageFailureView|
                same_reading(failure, reading_of(error)) && r@ == AppErrorView::Database(
                    #[trigger] DatabaseErrorView::of_failure(failure),
                ),
    {
        let db_error = DatabaseError::from(error);
        AppError::Database(db_error)
    }
}

impl FromSpecImpl<sqlx::Error> for AppError {
    open spec fn obeys_from_spec() -> bool {
        false
    }

    open spec fn from_spec(error: sqlx::Error) -> AppError {
        arbitrary()
    }
}

impl From<DomainError> for AppError {
    fn from(error: DomainError) -> (r: AppError)
        ensures
            r@ == AppErrorView::Domain(error@),
    {
        AppError::Domain(error)
    }
}

impl FromSpecImpl<DomainError> for AppError {
    open spec fn obeys_from_spec() -> bool {
        true
    }

    open spec fn from_spec(error: DomainError) -> AppError {
        AppError::Domain(error)
    }
}

} // verus!
