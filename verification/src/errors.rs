//! Error taxonomy: per-call application errors with their HTTP mapping, and
//! the errors of one search call.

use vstd::prelude::*;

verus! {

/// An application-level error surfaced to the HTTP layer.
#[derive(Debug, Clone, Copy, PartialEq, Eq)]
pub enum AppError {
    NotFound,
    Forbidden,
    Unexpected,
}

/// The HTTP status code that `e` maps to.
pub open spec fn status_code_spec(e: AppError) -> int {
    match e {
        AppError::NotFound => 404,
        AppError::Forbidden => 403,
        AppError::Unexpected => 500,
    }
}

/// The machine-readable kind of `e`.
pub open spec fn error_type_spec(e: AppError) -> Seq<char> {
    match e {
        AppError::NotFound => "not_found"@,
        AppError::Forbidden => "forbidden"@,
        AppError::Unexpected => "internal_server_error"@,
    }
}

/// The human-readable message of `e`.
pub open spec fn message_spec(e: AppError) -> Seq<char> {
    match e {
        AppError::NotFound => "The requested item was not found."@,
        AppError::Forbidden => "You are forbidden to access this resource."@,
        AppError::Unexpected => "An unexpected error occurred."@,
    }
}

impl AppError {
    /// The HTTP status code of this error.
    pub fn status_code(&self) -> (code: u16)
        ensures
            code == status_code_spec(*self),
    {
        match self {
            AppError::NotFound => 404,
            AppError::Forbidden => 403,
            AppError::Unexpected => 500,
        }
    }

    /// The machine-readable error type of this error.
    pub fn error_type(&self) -> (r: String)
        ensures
            r@ == error_type_spec(*self),
    {
        match self {
            AppError::NotFound => "not_found".to_owned(),
            AppError::Forbidden => "forbidden".to_owned(),
            AppError::Unexpected => "internal_server_error".to_owned(),
        }
    }

    /// The human-readable message of this error.
    pub fn message(&self) -> (r: String)
        ensures
            r@ == message_spec(*self),
    {
        match self {
            AppError::NotFound => "The requested item was not found.".to_owned(),
            AppError::Forbidden => "You are forbidden to access this resource.".to_owned(),
            AppError::Unexpected => "An unexpected error occurred.".to_owned(),
        }
    }
}

/// The JSON payload sent to the client when a request fails.
#[derive(Debug)]
pub struct ErrorResponse {
    pub error_code: u16,
    pub error_message: String,
    pub time_stamp: String,
}

/// Builds the payload for a recognized application error: its status code,
/// its message, and its machine-readable type.
pub fn error_response_of(e: &AppError) -> (r: ErrorResponse)
    ensures
        r.error_code == status_code_spec(*e),
        r.error_message@ == message_spec(*e),
        r.time_stamp@ == error_type_spec(*e),
{
    ErrorResponse { error_code: e.status_code(), error_message: e.message(), time_stamp: e.error_type() }
}

/// Builds the payload for an error that is not a recognized application
/// error: a generic internal server error.
pub fn fallback_error_response() -> (r: ErrorResponse)
    ensures
        r.error_code == 500,
        r.error_message@ == "An unexpected internal server error occurred."@,
        r.time_stamp@ == "internal_server_error"@,
{
    ErrorResponse {
        error_code: 500,
        error_message: "An unexpected internal server error occurred.".to_owned(),
        time_stamp: "internal_server_error".to_owned(),
    }
}

/// Marker for the error-handling middleware; the HTTP layer wraps each
/// request handler through it.
pub struct ErrorHandlingMiddleware;

/// The middleware service around an inner request handler `service`.
pub struct ErrorHandlingMiddlewareService<S> {
    pub service: S,
}

/// Hook for wiring the error-handling middleware at startup.
pub fn init_middle_error_handle() {
}

/// Why one whole search call failed: the upstream call itself failed
/// (`Upstream`), or its body did not match the expected schema (`Decode`).
#[derive(Debug, Clone, Copy, PartialEq, Eq)]
pub enum SearchError {
    Upstream,
    Decode,
}

/// A single thumbnail fetch failed: transport error, non-success status, or
/// an impossible encoding. Always absorbed into absence, never surfaced.
#[derive(Debug, Clone, Copy, PartialEq, Eq)]
pub struct FetchError;

} // verus!
