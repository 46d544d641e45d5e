//! What a request is told when it is turned down: a status code and a short
//! sentence.

use vstd::prelude::*;
use vstd::string::*;

verus! {

/// An answer to a request: the HTTP status code and the text of the body.
#[derive(Debug)]
pub struct ServerResponse {
    pub status: u16,
    pub message: String,
}

/// The status code of a request that is wrong in itself.
pub const BAD_REQUEST: u16 = 400;

/// The status code of a request for something that is not there.
pub const NOT_FOUND: u16 = 404;

/// The status code of a request that the state of its subject forbids.
pub const CONFLICT: u16 = 409;

/// The status code of a request on something that is in use.
pub const LOCKED: u16 = 423;

/// The status code of a failure on the server's side.
pub const INTERNAL_SERVER_ERROR: u16 = 500;

/// An answer with the given status and text.
pub fn status_response(status: u16, error: &str) -> (r: ServerResponse)
    ensures
        r.status == status,
        r.message@ == error@,
{
    ServerResponse { status, message: String::from_str(error) }
}

/// An answer that reports a failure on the server's side.
pub fn internal_server_error(err: &str) -> (r: ServerResponse)
    ensures
        r.status == INTERNAL_SERVER_ERROR,
        r.message@ == err@,
{
    status_response(INTERNAL_SERVER_ERROR, err)
}

/// Why a request was turned down.
#[derive(Clone, Copy, Debug, PartialEq, Eq, Structural)]
pub enum Rejection {
    InvalidOptions,
    NoChoices,
    ChoicesTooLong,
    DuplicateChoices,
    InsufficientCredits,
    FailedToQuery,
    UnknownError,
    InternalServiceError,
    FailedToAddTaskToQueue,
    NotAscii,
    InvalidId,
    NotFailed,
    BadRecordData,
    UpdatedNoRows,
    NoRecordsChanged,
    TooManyIds,
    DuplicateIds,
    UnexpectedError,
    ObjectInvalidState,
    BadError,
    FailedToReadObject,
    ContentNotFound,
    CannotCancel,
    DisplayNameTooLong,
    InvalidPageSize,
}

/// The status code that goes with a rejection.
pub open spec fn rejection_status(rejection: Rejection) -> u16 {
    match rejection {
        Rejection::InvalidOptions => BAD_REQUEST,
        Rejection::NoChoices => BAD_REQUEST,
        Rejection::ChoicesTooLong => BAD_REQUEST,
        Rejection::DuplicateChoices => BAD_REQUEST,
        Rejection::InsufficientCredits => BAD_REQUEST,
        Rejection::NotAscii => BAD_REQUEST,
        Rejection::InvalidId => BAD_REQUEST,
        Rejection::TooManyIds => BAD_REQUEST,
        Rejection::DuplicateIds => BAD_REQUEST,
        Rejection::DisplayNameTooLong => BAD_REQUEST,
        Rejection::InvalidPageSize => BAD_REQUEST,
        Rejection::ContentNotFound => NOT_FOUND,
        Rejection::NotFailed => CONFLICT,
        Rejection::CannotCancel => LOCKED,
        Rejection::FailedToQuery => INTERNAL_SERVER_ERROR,
        Rejection::UnknownError => INTERNAL_SERVER_ERROR,
        Rejection::InternalServiceError => INTERNAL_SERVER_ERROR,
        Rejection::FailedToAddTaskToQueue => INTERNAL_SERVER_ERROR,
        Rejection::BadRecordData => INTERNAL_SERVER_ERROR,
        Rejection::UpdatedNoRows => INTERNAL_SERVER_ERROR,
        Rejection::NoRecordsChanged => INTERNAL_SERVER_ERROR,
        Rejection::UnexpectedError => INTERNAL_SERVER_ERROR,
        Rejection::ObjectInvalidState => INTERNAL_SERVER_ERROR,
        Rejection::BadError => INTERNAL_SERVER_ERROR,
        Rejection::FailedToReadObject => INTERNAL_SERVER_ERROR,
    }
}

/// The sentence that goes with a rejection.
pub open spec fn rejection_text(rejection: Rejection) -> Seq<char> {
    match rejection {
        Rejection::InvalidOptions => "invalid options"@,
        Rejection::NoChoices => "Cannot generate with no choices"@,
        Rejection::ChoicesTooLong => "Choices too long"@,
        Rejection::DuplicateChoices => "Cannot have duplicate choices"@,
        Rejection::InsufficientCredits => "Insuffecient credits"@,
        Rejection::NotAscii => "not ascii"@,
        Rejection::InvalidId => "Invalid ID"@,
        Rejection::TooManyIds => "Too many ids"@,
        Rejection::DuplicateIds => "Cannot have duplicate ids"@,
        Rejection::DisplayNameTooLong => "length is greater than 20"@,
        Rejection::InvalidPageSize => "can only be 5 or 10"@,
        Rejection::ContentNotFound => "Content not found"@,
        Rejection::NotFailed => "You cannot retry a generation that has not failed"@,
        Rejection::CannotCancel => "Cannot cancel a generation"@,
        Rejection::FailedToQuery => "Failed to query"@,
        Rejection::UnknownError => "Unknown Error"@,
        Rejection::InternalServiceError => "Internal Service Error"@,
        Rejection::FailedToAddTaskToQueue => "Failed to add task to queue"@,
        Rejection::BadRecordData => "Bad record data"@,
        Rejection::UpdatedNoRows => "Updated 0 rows"@,
        Rejection::NoRecordsChanged => "No records changed"@,
        Rejection::UnexpectedError => "Unexpected error"@,
        Rejection::ObjectInvalidState => "Object has invalid state"@,
        Rejection::BadError => "Bad error"@,
        Rejection::FailedToReadObject => "Failed to read object"@,
    }
}

impl Rejection {
    /// The status code that goes with this rejection.
    pub fn status(&self) -> (r: u16)
        ensures
            r == rejection_status(*self),
    {
        match self {
            Rejection::InvalidOptions
            | Rejection::NoChoices
            | Rejection::ChoicesTooLong
            | Rejection::DuplicateChoices
            | Rejection::InsufficientCredits
            | Rejection::NotAscii
            | Rejection::InvalidId
            | Rejection::TooManyIds
            | Rejection::DuplicateIds
            | Rejection::DisplayNameTooLong
            | Rejection::InvalidPageSize => BAD_REQUEST,
            Rejection::ContentNotFound => NOT_FOUND,
            Rejection::NotFailed => CONFLICT,
            Rejection::CannotCancel => LOCKED,
            _ => INTERNAL_SERVER_ERROR,
        }
    }

    /// The sentence that goes with this rejection.
    pub fn message(&self) -> (r: &'static str)
        ensures
            r@ == rejection_text(*self),
    {
        match self {
            Rejection::InvalidOptions => "invalid options",
            Rejection::NoChoices => "Cannot generate with no choices",
            Rejection::ChoicesTooLong => "Choices too long",
            Rejection::DuplicateChoices => "Cannot have duplicate choices",
            Rejection::InsufficientCredits => "Insuffecient credits",
            Rejection::NotAscii => "not ascii",
            Rejection::InvalidId => "Invalid ID",
            Rejection::TooManyIds => "Too many ids",
            Rejection::DuplicateIds => "Cannot have duplicate ids",
            Rejection::DisplayNameTooLong => "length is greater than 20",
            Rejection::InvalidPageSize => "can only be 5 or 10",
            Rejection::ContentNotFound => "Content not found",
            Rejection::NotFailed => "You cannot retry a generation that has not failed",
            Rejection::CannotCancel => "Cannot cancel a generation",
            Rejection::FailedToQuery => "Failed to query",
            Rejection::UnknownError => "Unknown Error",
            Rejection::InternalServiceError => "Internal Service Error",
            Rejection::FailedToAddTaskToQueue => "Failed to add task to queue",
            Rejection::BadRecordData => "Bad record data",
            Rejection::UpdatedNoRows => "Updated 0 rows",
            Rejection::NoRecordsChanged => "No records changed",
            Rejection::UnexpectedError => "Unexpected error",
            Rejection::ObjectInvalidState => "Object has invalid state",
            Rejection::BadError => "Bad error",
            Rejection::FailedToReadObject => "Failed to read object",
        }
    }

    /// The answer that tells of this rejection.
    pub fn response(&self) -> (r: ServerResponse)
        ensures
            r.status == rejection_status(*self),
            r.message@ == rejection_text(*self),
    {
        status_response(self.status(), self.message())
    }
}

} // verus!
