//! The standard error envelope of the API.
//!
//! Every failing endpoint answers `{ "error": { "code": ..., "message": ... } }`
//! with the status of its error kind:
//!
//! | Code             | Status | When                      |
//! |------------------|--------|---------------------------|
//! | `BAD_REQUEST`    | 400    | Invalid input             |
//! | `UNAUTHORIZED`   | 401    | Missing/wrong credentials |
//! | `NOT_FOUND`      | 404    | Resource doesn't exist    |
//! | `INTERNAL_ERROR` | 500    | Server error              |

use vstd::prelude::*;

verus! {

/// Unified application error.
#[derive(Debug)]
pub enum AppError {
    /// Invalid request from the client.
    BadRequest(String),
    /// Authentication required or failed.
    Unauthorized(String),
    /// Resource not found.
    NotFound(String),
    /// Internal server error; its details are logged, never sent to the client.
    Internal(anyhow::Error),
}

/// What an error turns into on the wire: a status and the body's `code` and
/// `message`.
#[derive(Debug, Clone, PartialEq, Eq)]
pub struct ErrorResponse {
    pub status: u16,
    pub code: String,
    pub message: String,
}

/// The HTTP status of an error kind.
pub open spec fn error_status(e: AppError) -> u16 {
    match e {
        AppError::BadRequest(_) => 400,
        AppError::Unauthorized(_) => 401,
        AppError::NotFound(_) => 404,
        AppError::Internal(_) => 500,
    }
}

/// The machine-readable code of an error kind.
pub open spec fn error_code(e: AppError) -> Seq<char> {
    match e {
        AppError::BadRequest(_) => "BAD_REQUEST"@,
        AppError::Unauthorized(_) => "UNAUTHORIZED"@,
        AppError::NotFound(_) => "NOT_FOUND"@,
        AppError::Internal(_) => "INTERNAL_ERROR"@,
    }
}

/// The message sent to the client: the error's own text, except for internal
/// errors, which all read the same.
pub open spec fn client_message(e: AppError) -> Seq<char> {
    match e {
        AppError::BadRequest(m) => m@,
        AppError::Unauthorized(m) => m@,
        AppError::NotFound(m) => m@,
        AppError::Internal(_) => "an internal error occurred"@,
    }
}

/// The code that the error table gives to a status.
pub open spec fn code_for_status(status: u16) -> Seq<char> {
    if status == 400 {
        "BAD_REQUEST"@
    } else if status == 401 {
        "UNAUTHORIZED"@
    } else if status == 404 {
        "NOT_FOUND"@
    } else {
        "INTERNAL_ERROR"@
    }
}

impl AppError {
    /// The status, code and message of the error response.
    pub fn response_parts(&self) -> (r: ErrorResponse)
        ensures
            r.status == error_status(*self),
            r.code@ == error_code(*self),
            r.message@ == client_message(*self),
    {
        match self {
            AppError::BadRequest(msg) => ErrorResponse {
                status: 400,
                code: String::from_str("BAD_REQUEST"),
                message: msg.clone(),
            },
            AppError::Unauthorized(msg) => ErrorResponse {
                status: 401,
                code: String::from_str("UNAUTHORIZED"),
                message: msg.clone(),
            },
            AppError::NotFound(msg) => ErrorResponse {
                status: 404,
                code: String::from_str("NOT_FOUND"),
                message: msg.clone(),
            },
            AppError::Internal(_) => ErrorResponse {
                status: 500,
                code: String::from_str("INTERNAL_ERROR"),
                message: String::from_str("an internal error occurred"),
            },
        }
    }
}

/// Every error answers with a 4xx or 5xx status, its code is the one that the
/// error table gives to that status, and an internal error never shows its
/// details to the client.
pub proof fn lemma_error_envelope(e: AppError)
    ensures
        400 <= error_status(e) < 600,
        error_code(e) == code_for_status(error_status(e)),
        e is Internal ==> client_message(e) == "an internal error occurred"@,
{
}

/// The level at which a finished request is logged.
#[derive(Debug, Clone, Copy, PartialEq, Eq)]
pub enum LogLevel {
    Info,
    Warn,
    Error,
}

/// Requests are logged by their status: server errors (5xx) as errors, client
/// errors (4xx) as warnings, everything else (2xx) as information.
pub open spec fn log_level_for(status: u16) -> LogLevel {
    if status >= 500 {
        LogLevel::Error
    } else if status >= 400 {
        LogLevel::Warn
    } else {
        LogLevel::Info
    }
}

/// The level at which to log a request answered with `status`.
pub fn response_log_level(status: u16) -> (level: LogLevel)
    ensures
        level == log_level_for(status),
        200 <= status < 300 ==> level == LogLevel::Info,
        400 <= status < 500 ==> level == LogLevel::Warn,
        500 <= status < 600 ==> level == LogLevel::Error,
{
    if status >= 500 {
        LogLevel::Error
    } else if status >= 400 {
        LogLevel::Warn
    } else {
        LogLevel::Info
    }
}

/// Requests are logged by the class of their status: every 2xx as
/// information, every 4xx as a warning, every 5xx as an error.
pub proof fn lemma_log_level_by_status_class(status: u16)
    ensures
        200 <= status < 300 ==> log_level_for(status) == LogLevel::Info,
        400 <= status < 500 ==> log_level_for(status) == LogLevel::Warn,
        500 <= status < 600 ==> log_level_for(status) == LogLevel::Error,
{
}

/// Every error is logged at the level of its kind: internal errors as errors,
/// the others as warnings.
pub proof fn lemma_error_log_level(e: AppError)
    ensures
        log_level_for(error_status(e)) == if e is Internal {
            LogLevel::Error
        } else {
            LogLevel::Warn
        },
{
}

impl From<anyhow::Error> for AppError {
    /// Any `anyhow::Error` becomes an internal error.
    fn from(err: anyhow::Error) -> (r: AppError) {
        AppError::Internal(err)
    }
}

impl vstd::std_specs::convert::FromSpecImpl<anyhow::Error> for AppError {
    open spec fn obeys_from_spec() -> bool {
        true
    }

    open spec fn from_spec(v: anyhow::Error) -> AppError {
        AppError::Internal(v)
    }
}

} // verus!
