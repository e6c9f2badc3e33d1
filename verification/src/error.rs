//! Application error types and the HTTP status and message they are answered with.
use vstd::prelude::*;

verus! {

/// An error of any kind, carried through the library as it came.
#[verifier::external_type_specification]
#[verifier::external_body]
pub struct ExAnyhowError(anyhow::Error);

/// Application-level errors that map to HTTP status codes.
#[derive(Debug)]
pub enum AppError {
    /// Returned when a requested resource does not exist (HTTP 404).
    NotFound(String),
    /// Returned when the request lacks valid authentication (HTTP 401).
    Unauthorized(String),
    /// Returned when the request is malformed or invalid (HTTP 400).
    BadRequest(String),
    /// Returned for unexpected server-side failures (HTTP 500).
    Internal(String),
    /// Wraps any `anyhow::Error` as an internal server error (HTTP 500).
    Anyhow(anyhow::Error),
}

/// Result type alias for operations that can fail with `AppError`.
pub type AppResult<T> = Result<T, AppError>;

/// The text of an `anyhow::Error`: calls its `Display` implementation through
/// `ToString::to_string`. Nothing is claimed of the text.
#[verifier::external_body]
pub(crate) fn anyhow_error_text(e: &anyhow::Error) -> String {
    e.to_string()
}

impl AppError {
    /// The HTTP status code of each kind of error.
    pub open spec fn status_spec(&self) -> u16 {
        match self {
            AppError::NotFound(_) => 404,
            AppError::Unauthorized(_) => 401,
            AppError::BadRequest(_) => 400,
            AppError::Internal(_) => 500,
            AppError::Anyhow(_) => 500,
        }
    }

    /// The HTTP status code the error is answered with.
    pub fn status_code(&self) -> (r: u16)
        ensures
            r == self.status_spec(),
    {
        match self {
            AppError::NotFound(_) => 404,
            AppError::Unauthorized(_) => 401,
            AppError::BadRequest(_) => 400,
            AppError::Internal(_) => 500,
            AppError::Anyhow(_) => 500,
        }
    }

    /// The message put in the response body: the error's own text.
    pub fn response_message(&self) -> (r: String)
        ensures
            self matches AppError::NotFound(m) ==> r@ == m@,
            self matches AppError::Unauthorized(m) ==> r@ == m@,
            self matches AppError::BadRequest(m) ==> r@ == m@,
            self matches AppError::Internal(m) ==> r@ == m@,
    {
        match self {
            AppError::NotFound(m) => m.clone(),
            AppError::Unauthorized(m) => m.clone(),
            AppError::BadRequest(m) => m.clone(),
            AppError::Internal(m) => m.clone(),
            AppError::Anyhow(e) => anyhow_error_text(e),
        }
    }

    /// The status and the message of the response the error is answered with.
    pub fn response_parts(&self) -> (r: (u16, String))
        ensures
            r.0 == self.status_spec(),
            self matches AppError::NotFound(m) ==> r.1@ == m@,
            self matches AppError::Unauthorized(m) ==> r.1@ == m@,
            self matches AppError::BadRequest(m) ==> r.1@ == m@,
            self matches AppError::Internal(m) ==> r.1@ == m@,
    {
        (self.status_code(), self.response_message())
    }

    /// The human-readable description of the error: the kind, a colon and the
    /// message; an `Anyhow` error is described by its own text.
    pub fn to_string(&self) -> (r: String)
        ensures
            self matches AppError::NotFound(m) ==> r@ == "not found: "@ + m@,
            self matches AppError::Unauthorized(m) ==> r@ == "unauthorized: "@ + m@,
            self matches AppError::BadRequest(m) ==> r@ == "bad request: "@ + m@,
            self matches AppError::Internal(m) ==> r@ == "internal: "@ + m@,
    {
        match self {
            AppError::NotFound(m) => {
                let mut s = String::from_str("not found: ");
                s.append(m.as_str());
                s
            },
            AppError::Unauthorized(m) => {
                let mut s = String::from_str("unauthorized: ");
                s.append(m.as_str());
                s
            },
            AppError::BadRequest(m) => {
                let mut s = String::from_str("bad request: ");
                s.append(m.as_str());
                s
            },
            AppError::Internal(m) => {
                let mut s = String::from_str("internal: ");
                s.append(m.as_str());
                s
            },
            AppError::Anyhow(e) => anyhow_error_text(e),
        }
    }
}

impl From<anyhow::Error> for AppError {
    fn from(e: anyhow::Error) -> (r: Self) {
        AppError::Anyhow(e)
    }
}

impl vstd::std_specs::convert::FromSpecImpl<anyhow::Error> for AppError {
    open spec fn obeys_from_spec() -> bool {
        true
    }

    open spec fn from_spec(v: anyhow::Error) -> Self {
        AppError::Anyhow(v)
    }
}

} // verus!
