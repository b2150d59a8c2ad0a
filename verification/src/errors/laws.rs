//! Laws of handing failures upward, proved for every failure of a kind.

use vstd::prelude::*;
use crate::domain::model::error::DomainErrorView;
use crate::errors::AppErrorView;
use crate::errors::DatabaseErrorView;
use crate::errors::FOREIGN_KEY_VIOLATION;
use crate::errors::UNIQUE_VIOLATION;
use crate::errors::storage::StorageFailureView;

verus! {

/// A violated unique constraint, whatever its message, is duplicate data.
/// Handed to the transport layer as it is, it is answered with 409 and the
/// label "Duplicate data", and its message is passed on. Handed on through
/// the domain, it is a failure to save tagged as a duplicate.
pub proof fn lemma_unique_violation(message: Seq<char>)
    ensures
        ({
            let failure = StorageFailureView::Database { code: Some(UNIQUE_VIOLATION@), message };
            let error = DatabaseErrorView::of_failure(failure);
            &&& error == DatabaseErrorView::Duplicate(message)
            &&& AppErrorView::Database(error).status() == 409
            &&& AppErrorView::Database(error).error_type() == "Duplicate data"@
            &&& AppErrorView::Database(error).message() == message
            &&& error.to_domain() == DomainErrorView::SaveError("Duplicate:"@ + message)
        }),
{
}

/// A violated foreign key, whatever its message, is a failed query that
/// says so, answered with 400 and the label "Query error".
pub proof fn lemma_foreign_key_violation(message: Seq<char>)
    ensures
        ({
            let failure = StorageFailureView::Database {
                code: Some(FOREIGN_KEY_VIOLATION@),
                message,
            };
            let error = DatabaseErrorView::of_failure(failure);
            &&& error == DatabaseErrorView::Query("Foreign key violation: "@ + message)
            &&& AppErrorView::Database(error).status() == 400
            &&& AppErrorView::Database(error).error_type() == "Query error"@
        }),
{
    reveal_strlit("23505");
    reveal_strlit("23503");
    assert(FOREIGN_KEY_VIOLATION@[4] != UNIQUE_VIOLATION@[4]);
}

/// A row that was not found becomes, through the domain, a failure to save
/// that is answered with 400 and the label "Save error"; handed to the
/// transport layer as it is, it is answered with 404 and the label
/// "Not found".
pub proof fn lemma_row_not_found()
    ensures
        ({
            let error = DatabaseErrorView::of_failure(StorageFailureView::RowNotFound);
            &&& error == DatabaseErrorView::NotFound("Requested data not found"@)
            &&& error.to_domain() == DomainErrorView::SaveError(
                "Not found:Requested data not found"@,
            )
            &&& AppErrorView::Domain(error.to_domain()).status() == 400
            &&& AppErrorView::Domain(error.to_domain()).error_type() == "Save error"@
            &&& AppErrorView::Database(error).status() == 404
            &&& AppErrorView::Database(error).error_type() == "Not found"@
        }),
{
    reveal_strlit("Not found:");
    reveal_strlit("Requested data not found");
    reveal_strlit("Not found:Requested data not found");
    assert("Not found:"@ + "Requested data not found"@ =~= "Not found:Requested data not found"@);
}

/// No connection in time is a failure of the connection, answered with 503.
pub proof fn lemma_pool_timed_out()
    ensures
        ({
            let error = DatabaseErrorView::of_failure(StorageFailureView::PoolTimedOut);
            &&& error == DatabaseErrorView::Connection("Database connection pool timeout"@)
            &&& AppErrorView::Database(error).status() == 503
            &&& AppErrorView::Database(error).error_type() == "Database connection error"@
        }),
{
}

/// Every failure of the storage layer becomes a failure to save, never one
/// to delete, and through the domain every one is answered with 400 and the
/// label "Save error".
pub proof fn lemma_storage_failures_fold_into_save_errors(failure: StorageFailureView)
    ensures
        DatabaseErrorView::of_failure(failure).to_domain() is SaveError,
        AppErrorView::Domain(DatabaseErrorView::of_failure(failure).to_domain()).status() == 400,
        AppErrorView::Domain(DatabaseErrorView::of_failure(failure).to_domain()).error_type()
            == "Save error"@,
{
}

/// Every failure is answered with one of eight statuses, and none but a
/// failure of the storage layer with 404, 409 or 503.
pub proof fn lemma_statuses(error: AppErrorView)
    ensures
        error.status() == 400 || error.status() == 401 || error.status() == 403 || error.status()
            == 404 || error.status() == 409 || error.status() == 500 || error.status() == 502
            || error.status() == 503,
        error.status() == 404 || error.status() == 409 || error.status() == 503
            ==> error is Database,
{
}

} // verus!
