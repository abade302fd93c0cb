//! What a request handler decides once the store has answered: which failure
//! a missing row is, and which status and message a failure is answered with.

use vstd::prelude::*;
use crate::db::QueryFault;
use crate::models::AppConfig;

verus! {

/// `sqlx::Error`, the failure of a call to the store. It is carried through
/// and never looked into.
#[verifier::external_type_specification]
#[verifier::external_body]
pub struct ExSqlxError(sqlx::Error);

/// `csv::Error`, the failure of the CSV writer. It is carried through and
/// never looked into.
#[verifier::external_type_specification]
#[verifier::external_body]
pub struct ExCsvError(csv::Error);

/// The status of a successful read or update.
pub const STATUS_OK: u16 = 200;

/// The status of a successful create.
pub const STATUS_CREATED: u16 = 201;

/// The status of a successful delete.
pub const STATUS_NO_CONTENT: u16 = 204;

/// The status of a request that cannot be planned.
pub const STATUS_BAD_REQUEST: u16 = 400;

/// The status of a request for a record that does not exist.
pub const STATUS_NOT_FOUND: u16 = 404;

/// The status of a failure in the store or in encoding.
pub const STATUS_INTERNAL_SERVER_ERROR: u16 = 500;

/// Why a request failed.
#[derive(Debug)]
pub enum AppError {
    /// The store failed.
    Database(sqlx::Error),
    /// No record has the identity that the request names.
    NotFound,
    /// The result set could not be encoded as CSV.
    Csv(csv::Error),
    /// The listing request cannot be planned.
    InvalidQuery(QueryFault),
}

impl From<sqlx::Error> for AppError {
    fn from(err: sqlx::Error) -> (e: AppError) {
        AppError::Database(err)
    }
}

impl vstd::std_specs::convert::FromSpecImpl<sqlx::Error> for AppError {
    open spec fn obeys_from_spec() -> bool {
        true
    }

    open spec fn from_spec(err: sqlx::Error) -> AppError {
        AppError::Database(err)
    }
}

impl From<csv::Error> for AppError {
    fn from(err: csv::Error) -> (e: AppError) {
        AppError::Csv(err)
    }
}

impl vstd::std_specs::convert::FromSpecImpl<csv::Error> for AppError {
    open spec fn obeys_from_spec() -> bool {
        true
    }

    open spec fn from_spec(err: csv::Error) -> AppError {
        AppError::Csv(err)
    }
}

impl From<QueryFault> for AppError {
    fn from(fault: QueryFault) -> (e: AppError) {
        AppError::InvalidQuery(fault)
    }
}

impl vstd::std_specs::convert::FromSpecImpl<QueryFault> for AppError {
    open spec fn obeys_from_spec() -> bool {
        true
    }

    open spec fn from_spec(fault: QueryFault) -> AppError {
        AppError::InvalidQuery(fault)
    }
}

impl AppError {
    /// The status that the failure is answered with.
    pub open spec fn status_code(self) -> u16 {
        match self {
            AppError::Database(_) => STATUS_INTERNAL_SERVER_ERROR,
            AppError::NotFound => STATUS_NOT_FOUND,
            AppError::Csv(_) => STATUS_INTERNAL_SERVER_ERROR,
            AppError::InvalidQuery(_) => STATUS_BAD_REQUEST,
        }
    }

    /// The message that the failure is answered with. It never carries the
    /// detail of a store or encoding failure.
    pub open spec fn message_text(self) -> Seq<char> {
        match self {
            AppError::Database(_) => "Internal server error"@,
            AppError::NotFound => "Resource not found"@,
            AppError::Csv(_) => "Failed to generate CSV"@,
            AppError::InvalidQuery(_) => "Invalid query parameters"@,
        }
    }

    /// The status and the message that the failure is answered with.
    pub fn status_and_message(&self) -> (reply: (u16, &'static str))
        ensures
            reply.0 == self.status_code(),
            reply.1@ == self.message_text(),
    {
        match self {
            AppError::Database(_) => (STATUS_INTERNAL_SERVER_ERROR, "Internal server error"),
            AppError::NotFound => (STATUS_NOT_FOUND, "Resource not found"),
            AppError::Csv(_) => (STATUS_INTERNAL_SERVER_ERROR, "Failed to generate CSV"),
            AppError::InvalidQuery(_) => (STATUS_BAD_REQUEST, "Invalid query parameters"),
        }
    }
}

/// The record that a read or an update by identity found, or `NotFound`
/// where it found none.
pub fn require_found(found: Option<AppConfig>) -> (outcome: Result<AppConfig, AppError>)
    ensures
        match found {
            Some(config) => outcome == Ok::<AppConfig, AppError>(config),
            None => outcome == Err::<AppConfig, AppError>(AppError::NotFound),
        },
{
    match found {
        Some(config) => Ok(config),
        None => Err(AppError::NotFound),
    }
}

/// The outcome of a delete by identity: the no-content status where a row
/// was removed, `NotFound` where none was.
pub fn deletion_outcome(deleted: bool) -> (outcome: Result<u16, AppError>)
    ensures
        outcome == if deleted {
            Ok::<u16, AppError>(STATUS_NO_CONTENT)
        } else {
            Err::<u16, AppError>(AppError::NotFound)
        },
{
    if deleted {
        Ok(STATUS_NO_CONTENT)
    } else {
        Err(AppError::NotFound)
    }
}

} // verus!
