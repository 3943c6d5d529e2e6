//! The error type of the routes of `routes::auth`. It is answered with the
//! standard envelope `{ "error": { "code": ..., "message": ... } }` and the
//! status and code of the error table (see `response`).

use vstd::prelude::*;

verus! {

/// Unified application error.
#[derive(Debug)]
pub enum AppError {
    /// Invalid request from the client.
    BadRequest(String),
    /// Authentication required or failed.
    Unauthorized(String),
    /// Resource not found.
    NotFound(String),
    /// Internal server error; its details are logged, never sent to the client.
    Internal(anyhow::Error),
}

/// What an error turns into on the wire: a status and the body's code and
/// message.
#[derive(Debug, Clone, PartialEq, Eq)]
pub struct ErrorReply {
    pub status: u16,
    pub code: String,
    pub message: String,
}

/// The HTTP status of an error kind.
pub open spec fn reply_status(e: AppError) -> u16 {
    match e {
        AppError::BadRequest(_) => 400,
        AppError::Unauthorized(_) => 401,
        AppError::NotFound(_) => 404,
        AppError::Internal(_) => 500,
    }
}

/// The machine-readable code of an error kind.
pub open spec fn reply_code(e: AppError) -> Seq<char> {
    match e {
        AppError::BadRequest(_) => "BAD_REQUEST"@,
        AppError::Unauthorized(_) => "UNAUTHORIZED"@,
        AppError::NotFound(_) => "NOT_FOUND"@,
        AppError::Internal(_) => "INTERNAL_ERROR"@,
    }
}

/// The message sent to the client.
pub open spec fn reply_message(e: AppError) -> Seq<char> {
    match e {
        AppError::BadRequest(m) => m@,
        AppError::Unauthorized(m) => m@,
        AppError::NotFound(m) => m@,
        AppError::Internal(_) => "an internal error occurred"@,
    }
}

impl AppError {
    /// The status, code and message of the error response.
    pub fn reply_parts(&self) -> (r: ErrorReply)
        ensures
            r.status == reply_status(*self),
            r.code@ == reply_code(*self),
            r.message@ == reply_message(*self),
    {
        match self {
            AppError::BadRequest(msg) => ErrorReply {
                status: 400,
                code: String::from_str("BAD_REQUEST"),
                message: msg.clone(),
            },
            AppError::Unauthorized(msg) => ErrorReply {
                status: 401,
                code: String::from_str("UNAUTHORIZED"),
                message: msg.clone(),
            },
            AppError::NotFound(msg) => ErrorReply {
                status: 404,
                code: String::from_str("NOT_FOUND"),
                message: msg.clone(),
            },
            AppError::Internal(_) => ErrorReply {
                status: 500,
                code: String::from_str("INTERNAL_ERROR"),
                message: String::from_str("an internal error occurred"),
            },
        }
    }
}

/// Every error answers with a 4xx or 5xx status and the code that the error
/// table gives to it, and an internal error never shows its details.
pub proof fn lemma_reply_envelope(e: AppError)
    ensures
        400 <= reply_status(e) < 600,
        reply_code(e) == crate::response::code_for_status(reply_status(e)),
        e is Internal ==> reply_message(e) == "an internal error occurred"@,
{
}

impl From<anyhow::Error> for AppError {
    /// Any `anyhow::Error` becomes an internal error.
    fn from(err: anyhow::Error) -> (r: AppError) {
        AppError::Internal(err)
    }
}

impl vstd::std_specs::convert::FromSpecImpl<anyhow::Error> for AppError {
    open spec fn obeys_from_spec() -> bool {
        true
    }

    open spec fn from_spec(v: anyhow::Error) -> AppError {
        AppError::Internal(v)
    }
}

} // verus!
