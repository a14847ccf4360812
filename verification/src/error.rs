//! The error type shared by the whole service and the HTTP answer each
//! error is given.
use vstd::prelude::*;
use crate::text::owned;

verus! {

/// Every way a request can fail.
#[derive(Debug, Clone)]
pub enum AppError {
    /// The database failed; the text describes the failure for the log only.
    Database(String),
    NotFound(String),
    /// The client's input is malformed.
    BadRequest(String),
    /// Authentication failed or is missing.
    Unauthorized(String),
    /// The request conflicts with stored data, such as an e-mail already in use.
    Conflict(String),
    /// A collaborating service (password hashing, token signing, the
    /// recommendation model) failed.
    External(String),
    /// The user has used up a daily allowance.
    TooManyRequests(String),
}

/// The status and message an error is answered with.
#[derive(Debug, Clone)]
pub struct ErrorResponse {
    pub status: u16,
    pub message: String,
}

impl ErrorResponse {
    /// The HTTP status code of this answer.
    pub fn status(&self) -> (r: u16)
        ensures
            r == self.status,
    {
        self.status
    }
}

pub const STATUS_BAD_REQUEST: u16 = 400;
pub const STATUS_UNAUTHORIZED: u16 = 401;
pub const STATUS_NOT_FOUND: u16 = 404;
pub const STATUS_CONFLICT: u16 = 409;
pub const STATUS_TOO_MANY_REQUESTS: u16 = 429;
pub const STATUS_INTERNAL_SERVER_ERROR: u16 = 500;

/// The message shown for a database failure, whose details are not disclosed.
pub open spec fn internal_error_text() -> Seq<char> {
    "サーバ内部でエラーが発生しました"@
}

/// The HTTP status code each error is answered with.
pub open spec fn error_status(e: AppError) -> u16 {
    match e {
        AppError::Database(_) => STATUS_INTERNAL_SERVER_ERROR,
        AppError::NotFound(_) => STATUS_NOT_FOUND,
        AppError::BadRequest(_) => STATUS_BAD_REQUEST,
        AppError::Unauthorized(_) => STATUS_UNAUTHORIZED,
        AppError::Conflict(_) => STATUS_CONFLICT,
        AppError::External(_) => STATUS_INTERNAL_SERVER_ERROR,
        AppError::TooManyRequests(_) => STATUS_TOO_MANY_REQUESTS,
    }
}

/// The message each error is answered with: its own text, except for a
/// database failure, which is answered with a fixed text.
pub open spec fn error_message(e: AppError) -> Seq<char> {
    match e {
        AppError::Database(_) => internal_error_text(),
        AppError::NotFound(m) => m@,
        AppError::BadRequest(m) => m@,
        AppError::Unauthorized(m) => m@,
        AppError::Conflict(m) => m@,
        AppError::External(m) => m@,
        AppError::TooManyRequests(m) => m@,
    }
}

impl AppError {
    /// The HTTP status code this error is answered with.
    pub fn status_code(&self) -> (r: u16)
        ensures
            r == error_status(*self),
    {
        match self {
            AppError::Database(_) => STATUS_INTERNAL_SERVER_ERROR,
            AppError::NotFound(_) => STATUS_NOT_FOUND,
            AppError::BadRequest(_) => STATUS_BAD_REQUEST,
            AppError::Unauthorized(_) => STATUS_UNAUTHORIZED,
            AppError::Conflict(_) => STATUS_CONFLICT,
            AppError::External(_) => STATUS_INTERNAL_SERVER_ERROR,
            AppError::TooManyRequests(_) => STATUS_TOO_MANY_REQUESTS,
        }
    }

    /// The answer to a request that failed with this error.
    pub fn into_response(self) -> (r: ErrorResponse)
        ensures
            r.status == error_status(self),
            r.message@ == error_message(self),
    {
        let status = self.status_code();
        let message = match self {
            AppError::Database(_) => owned("サーバ内部でエラーが発生しました"),
            AppError::NotFound(m) => m,
            AppError::BadRequest(m) => m,
            AppError::Unauthorized(m) => m,
            AppError::Conflict(m) => m,
            AppError::External(m) => m,
            AppError::TooManyRequests(m) => m,
        };
        ErrorResponse { status, message }
    }
}

/// Only failures of the service itself are answered with a server-error
/// status (500); every other error is answered with a client-error status
/// (400 to 499).
pub proof fn lemma_error_status_classes(e: AppError)
    ensures
        (error_status(e) == STATUS_INTERNAL_SERVER_ERROR) <==> (e is Database || e is External),
        !(e is Database || e is External) ==> 400 <= error_status(e) < 500,
{
}

} // verus!
