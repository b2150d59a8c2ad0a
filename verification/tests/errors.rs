use std::borrow::Cow;
use std::error::Error as StdError;
use std::fmt;

use mall::domain::model::error::CreateError;
use mall::domain::model::error::DomainError;
use mall::errors::response::frame_error;
use mall::errors::response::json_error;
use mall::errors::response::ErrorResponse;
use mall::errors::storage::StorageFailure;
use mall::errors::AppError;
use mall::errors::DatabaseError;
use mall::errors::FOREIGN_KEY_VIOLATION;
use mall::errors::UNIQUE_VIOLATION;

/// A database error as a driver would report it.
#[derive(Debug)]
struct ReportedError {
    code: Option<&'static str>,
    message: &'static str,
}

impl fmt::Display for ReportedError {
    fn fmt(&self, f: &mut fmt::Formatter<'_>) -> fmt::Result {
        f.write_str(self.message)
    }
}

impl StdError for ReportedError {}

impl sqlx::error::DatabaseError for ReportedError {
    fn message(&self) -> &str {
        self.message
    }

    fn code(&self) -> Option<Cow<'_, str>> {
        self.code.map(Cow::Borrowed)
    }

    fn as_error(&self) -> &(dyn StdError + Send + Sync + 'static) {
        self
    }

    fn as_error_mut(&mut self) -> &mut (dyn StdError + Send + Sync + 'static) {
        self
    }

    fn into_error(self: Box<Self>) -> Box<dyn StdError + Send + Sync + 'static> {
        self
    }

    fn kind(&self) -> sqlx::error::ErrorKind {
        sqlx::error::ErrorKind::Other
    }
}

fn reported(code: Option<&'static str>, message: &'static str) -> sqlx::Error {
    sqlx::Error::Database(Box::new(ReportedError { code, message }))
}

fn database_failure(code: Option<&str>, message: &str) -> StorageFailure {
    StorageFailure::Database { code: code.map(|code| code.to_string()), message: message.to_string() }
}

fn answer(error: &AppError) -> (u16, String, String) {
    let response = error.error_response();
    (response.status, response.error_type, response.message)
}

fn expected(status: u16, error_type: &str, message: &str) -> (u16, String, String) {
    (status, error_type.to_string(), message.to_string())
}

#[test]
fn codes_of_violated_constraints() {
    assert_eq!(UNIQUE_VIOLATION, "23505");
    assert_eq!(FOREIGN_KEY_VIOLATION, "23503");
}

#[test]
fn unique_violation_is_duplicate_data() {
    let error = DatabaseError::from_failure(database_failure(Some("23505"), "dup key"));
    assert!(matches!(error, DatabaseError::Duplicate(ref detail) if detail == "dup key"));
}

#[test]
fn foreign_key_violation_is_a_failed_query() {
    let error = DatabaseError::from_failure(database_failure(Some("23503"), "no such user"));
    assert!(matches!(
        error,
        DatabaseError::Query(ref detail) if detail == "Foreign key violation: no such user"
    ));
}

#[test]
fn other_code_is_a_failed_query() {
    let error = DatabaseError::from_failure(database_failure(Some("42601"), "syntax error"));
    assert!(matches!(error, DatabaseError::Query(ref detail) if detail == "syntax error"));

    let error = DatabaseError::from_failure(database_failure(Some(""), "empty code"));
    assert!(matches!(error, DatabaseError::Query(ref detail) if detail == "empty code"));

    let error = DatabaseError::from_failure(database_failure(Some("235050"), "longer code"));
    assert!(matches!(error, DatabaseError::Query(ref detail) if detail == "longer code"));
}

#[test]
fn database_error_without_code_is_of_no_special_kind() {
    let error = DatabaseError::from_failure(database_failure(None, "odd"));
    assert!(matches!(error, DatabaseError::Other(ref detail) if detail == "odd"));
}

#[test]
fn row_not_found_is_missing_data() {
    let error = DatabaseError::from_failure(StorageFailure::RowNotFound);
    assert!(matches!(
        error,
        DatabaseError::NotFound(ref detail) if detail == "Requested data not found"
    ));
}

#[test]
fn pool_timeout_is_a_failed_connection() {
    let error = DatabaseError::from_failure(StorageFailure::PoolTimedOut);
    assert!(matches!(
        error,
        DatabaseError::Connection(ref detail) if detail == "Database connection pool timeout"
    ));
}

#[test]
fn other_failure_keeps_its_text() {
    let error = DatabaseError::from_failure(StorageFailure::Other("broken pipe".to_string()));
    assert!(matches!(error, DatabaseError::Other(ref detail) if detail == "broken pipe"));
}

#[test]
fn driver_unique_violation_is_duplicate_data() {
    let error = DatabaseError::from(reported(Some("23505"), "dup key"));
    assert!(matches!(error, DatabaseError::Duplicate(ref detail) if detail == "dup key"));
}

#[test]
fn driver_foreign_key_violation_is_a_failed_query() {
    let error = DatabaseError::from(reported(Some("23503"), "no such user"));
    assert!(matches!(
        error,
        DatabaseError::Query(ref detail) if detail == "Foreign key violation: no such user"
    ));
}

#[test]
fn driver_error_with_another_code_is_a_failed_query() {
    let error = DatabaseError::from(reported(Some("42601"), "syntax error"));
    assert!(matches!(error, DatabaseError::Query(ref detail) if detail == "syntax error"));
}

#[test]
fn driver_error_without_code_is_of_no_special_kind() {
    let error = DatabaseError::from(reported(None, "odd"));
    assert!(matches!(error, DatabaseError::Other(ref detail) if detail == "odd"));
}

#[test]
fn driver_row_not_found_is_missing_data() {
    let error = DatabaseError::from(sqlx::Error::RowNotFound);
    assert!(matches!(
        error,
        DatabaseError::NotFound(ref detail) if detail == "Requested data not found"
    ));
}

#[test]
fn driver_pool_timeout_is_a_failed_connection() {
    let error = DatabaseError::from(sqlx::Error::PoolTimedOut);
    assert!(matches!(
        error,
        DatabaseError::Connection(ref detail) if detail == "Database connection pool timeout"
    ));
}

#[test]
fn driver_failure_of_another_kind_keeps_its_text() {
    let error = DatabaseError::from(sqlx::Error::PoolClosed);
    assert!(matches!(
        error,
        DatabaseError::Other(ref detail)
            if detail == "attempted to acquire a connection on a closed pool"
    ));

    let error = DatabaseError::from(sqlx::Error::Protocol("bad frame".to_string()));
    assert!(matches!(
        error,
        DatabaseError::Other(ref detail)
            if detail == "encountered unexpected or invalid data: bad frame"
    ));
}

#[test]
fn missing_and_duplicate_data_are_tagged_in_the_domain() {
    let error = DomainError::from(DatabaseError::NotFound("row 5".to_string()));
    assert!(matches!(error, DomainError::SaveError(ref detail) if detail == "Not found:row 5"));

    let error = DomainError::from(DatabaseError::Duplicate("dup key".to_string()));
    assert!(matches!(error, DomainError::SaveError(ref detail) if detail == "Duplicate:dup key"));
}

#[test]
fn other_kinds_are_described_in_full_in_the_domain() {
    let error = DomainError::from(DatabaseError::Connection("refused".to_string()));
    assert!(matches!(
        error,
        DomainError::SaveError(ref detail) if detail == "Connection error: refused"
    ));

    let error = DomainError::from(DatabaseError::Query("syntax".to_string()));
    assert!(matches!(error, DomainError::SaveError(ref detail) if detail == "Query error: syntax"));

    let error = DomainError::from(DatabaseError::Other("odd".to_string()));
    assert!(matches!(
        error,
        DomainError::SaveError(ref detail) if detail == "Other database error: odd"
    ));
}

#[test]
fn driver_failure_becomes_a_failure_to_save() {
    let error = DomainError::from(reported(Some("23505"), "dup key"));
    assert!(matches!(error, DomainError::SaveError(ref detail) if detail == "Duplicate:dup key"));

    let error = DomainError::from(sqlx::Error::RowNotFound);
    assert!(matches!(
        error,
        DomainError::SaveError(ref detail) if detail == "Not found:Requested data not found"
    ));

    let error = DomainError::from(sqlx::Error::PoolTimedOut);
    assert!(matches!(
        error,
        DomainError::SaveError(ref detail)
            if detail == "Connection error: Database connection pool timeout"
    ));
}

#[test]
fn driver_failure_becomes_a_failure_of_the_transport() {
    let error = AppError::from(reported(Some("23505"), "dup key"));
    assert!(matches!(
        error,
        AppError::Database(DatabaseError::Duplicate(ref detail)) if detail == "dup key"
    ));
    assert_eq!(error.status_code(), 409);
}

#[test]
fn failures_wrap_into_failures_of_the_transport() {
    let error = AppError::from(DatabaseError::Query("syntax".to_string()));
    assert!(matches!(error, AppError::Database(DatabaseError::Query(ref detail)) if detail == "syntax"));

    let error = AppError::from(DomainError::DeleteError("gone".to_string()));
    assert!(matches!(error, AppError::Domain(DomainError::DeleteError(ref detail)) if detail == "gone"));
}

#[test]
fn every_kind_of_failure_has_its_answer() {
    let text = || "why".to_string();

    assert_eq!(
        answer(&AppError::Domain(DomainError::SaveError(text()))),
        expected(400, "Save error", "why")
    );
    assert_eq!(
        answer(&AppError::Domain(DomainError::DeleteError(text()))),
        expected(400, "Delete error", "why")
    );
    assert_eq!(
        answer(&AppError::Database(DatabaseError::NotFound(text()))),
        expected(404, "Not found", "why")
    );
    assert_eq!(
        answer(&AppError::Database(DatabaseError::Duplicate(text()))),
        expected(409, "Duplicate data", "why")
    );
    assert_eq!(
        answer(&AppError::Database(DatabaseError::Query(text()))),
        expected(400, "Query error", "why")
    );
    assert_eq!(
        answer(&AppError::Database(DatabaseError::Connection(text()))),
        expected(503, "Database connection error", "why")
    );
    assert_eq!(
        answer(&AppError::Database(DatabaseError::Other(text()))),
        expected(500, "Database error", "why")
    );
    assert_eq!(answer(&AppError::Validation(text())), expected(400, "Validation error", "why"));
    assert_eq!(
        answer(&AppError::Authentication(text())),
        expected(401, "Authentication error", "why")
    );
    assert_eq!(
        answer(&AppError::Authorization(text())),
        expected(403, "Authorization error", "why")
    );
    assert_eq!(
        answer(&AppError::ExternalService(text())),
        expected(502, "External service error", "why")
    );
    assert_eq!(answer(&AppError::Other(text())), expected(500, "Internal server error", "why"));
}

#[test]
fn parts_of_an_answer_agree_with_the_answer() {
    let error = AppError::Database(DatabaseError::Connection("refused".to_string()));

    assert_eq!(error.status_code(), 503);
    assert_eq!(error.error_type(), "Database connection error");
    assert_eq!(error.message(), "refused");
}

#[test]
fn round_trip_of_a_unique_violation() {
    let error = AppError::from(reported(Some("23505"), "users_email_key"));
    let response = error.error_response();

    assert_eq!(response.status, 409);
    assert_eq!(response.error_type, "Duplicate data");
}

#[test]
fn round_trip_of_a_row_not_found() {
    let domain = DomainError::from(sqlx::Error::RowNotFound);
    assert!(matches!(domain, DomainError::SaveError(_)));

    let response = AppError::from(domain).error_response();
    assert_eq!(response.status, 400);
    assert_eq!(response.error_type, "Save error");
    assert_eq!(response.message, "Not found:Requested data not found");

    let direct = AppError::from(sqlx::Error::RowNotFound).error_response();
    assert_eq!(direct.status, 404);
    assert_eq!(direct.error_type, "Not found");
}

#[test]
fn duplicate_key_through_both_layers() {
    let domain = DomainError::from(reported(Some("23505"), "dup key"));
    assert!(matches!(domain, DomainError::SaveError(ref detail) if detail == "Duplicate:dup key"));

    let response = AppError::from(reported(Some("23505"), "dup key")).error_response();
    assert_eq!(response.status, 409);
    assert_eq!(response.error_type, "Duplicate data");
    assert_eq!(response.body(), r#"{"error":{"type":"Duplicate data","message":"dup key"}}"#);
}

#[test]
fn body_is_the_error_envelope() {
    assert_eq!(
        json_error("Save error", "Duplicate:dup key"),
        r#"{"error":{"type":"Save error","message":"Duplicate:dup key"}}"#
    );
    assert_eq!(json_error("", ""), r#"{"error":{"type":"","message":""}}"#);
}

#[test]
fn body_escapes_what_json_does_not_take() {
    let body = json_error("Query error", "bad \"name\"\nline \\ two\ttab");
    assert_eq!(
        body,
        r#"{"error":{"type":"Query error","message":"bad \"name\"\nline \\ two\ttab"}}"#
    );
}

#[test]
fn body_reads_back_as_json() {
    let response = ErrorResponse {
        status: 400,
        error_type: "Validation error".to_string(),
        message: "name: \"\" is {empty}".to_string(),
    };

    let value: serde_json::Value = serde_json::from_str(&response.body()).unwrap();
    let error = value.get("error").unwrap();
    assert_eq!(value.as_object().unwrap().len(), 1);
    assert_eq!(error.as_object().unwrap().len(), 2);
    assert_eq!(error.get("type").unwrap().as_str(), Some("Validation error"));
    assert_eq!(error.get("message").unwrap().as_str(), Some("name: \"\" is {empty}"));
}

#[test]
fn frame_puts_literals_into_the_envelope() {
    assert_eq!(frame_error("\"a\"", "\"b\""), r#"{"error":{"type":"a","message":"b"}}"#);
    assert_eq!(frame_error("1", "2"), r#"{"error":{"type":1,"message":2}}"#);
}

#[test]
fn failures_describe_themselves() {
    assert_eq!(DomainError::SaveError("x".to_string()).to_string(), "Item save error:x");
    assert_eq!(DomainError::DeleteError("x".to_string()).to_string(), "Item delete error:x");

    assert_eq!(DatabaseError::Connection("x".to_string()).to_string(), "Connection error: x");
    assert_eq!(DatabaseError::Query("x".to_string()).to_string(), "Query error: x");
    assert_eq!(DatabaseError::Duplicate("x".to_string()).to_string(), "Duplicate data: x");
    assert_eq!(DatabaseError::NotFound("x".to_string()).to_string(), "Data not found: x");
    assert_eq!(DatabaseError::Other("x".to_string()).to_string(), "Other database error: x");

    assert_eq!(
        AppError::Domain(DomainError::SaveError("x".to_string())).to_string(),
        "Domain error: Item save error:x"
    );
    assert_eq!(
        AppError::Database(DatabaseError::Query("x".to_string())).to_string(),
        "Database error: Query error: x"
    );
    assert_eq!(AppError::ExternalService("x".to_string()).to_string(), "External service error: x");
    assert_eq!(AppError::Validation("x".to_string()).to_string(), "Validation error: x");
    assert_eq!(AppError::Authentication("x".to_string()).to_string(), "Authentication error: x");
    assert_eq!(AppError::Authorization("x".to_string()).to_string(), "Authorization error: x");
    assert_eq!(AppError::Other("x".to_string()).to_string(), "Other error: x");
}

#[test]
fn failures_of_the_domain_are_made_by_kind() {
    assert!(matches!(DomainError::save("full"), DomainError::SaveError(ref detail) if detail == "full"));
    assert!(matches!(
        DomainError::delete("locked"),
        DomainError::DeleteError(ref detail) if detail == "locked"
    ));
}

#[test]
fn failures_to_create_are_made_of_texts() {
    assert!(matches!(
        CreateError::invalid("no name"),
        CreateError::InvalidData(ref detail) if detail == "no name"
    ));
    assert!(matches!(
        CreateError::from("no name"),
        CreateError::InvalidData(ref detail) if detail == "no name"
    ));
}
