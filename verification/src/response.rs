//! The JSON envelope every CapeOS endpoint answers with.
use vstd::prelude::*;

verus! {

/// The status that `StatusCode::from_u16(code).unwrap_or(fallback)` yields:
/// codes from 100 to 999 are taken as they are, any other gives `fallback`.
pub open spec fn status_or(code: u16, fallback: u16) -> u16 {
    if 100 <= code <= 999 {
        code
    } else {
        fallback
    }
}

/// Executable form of `status_or`.
pub fn http_status_or(code: u16, fallback: u16) -> (r: u16)
    ensures
        r == status_or(code, fallback),
{
    if 100 <= code && code <= 999 {
        code
    } else {
        fallback
    }
}

/// Standard API response: a status code, a message and optional data.
#[derive(Debug)]
pub struct ApiResponse<T> {
    pub success: u16,
    pub message: String,
    pub data: Option<T>,
}

impl<T> ApiResponse<T> {
    /// A `200 ok` response carrying `data`.
    pub fn ok(data: T) -> (r: Self)
        ensures
            r.success == 200,
            r.message@ == "ok"@,
            r.data == Some(data),
    {
        ApiResponse { success: 200, message: String::from_str("ok"), data: Some(data) }
    }

    /// A `201 created` response carrying `data`.
    pub fn created(data: T) -> (r: Self)
        ensures
            r.success == 201,
            r.message@ == "created"@,
            r.data == Some(data),
    {
        ApiResponse { success: 201, message: String::from_str("created"), data: Some(data) }
    }

    /// The HTTP status the response is sent with: `success` when it is a valid
    /// status code, 200 otherwise.
    pub fn http_status(&self) -> (r: u16)
        ensures
            r == status_or(self.success, 200),
    {
        http_status_or(self.success, 200)
    }
}

impl ApiResponse<()> {
    /// A `200 ok` response without data.
    pub fn ok_empty() -> (r: Self)
        ensures
            r.success == 200,
            r.message@ == "ok"@,
            r.data is None,
    {
        ApiResponse { success: 200, message: String::from_str("ok"), data: None }
    }
}

} // verus!
