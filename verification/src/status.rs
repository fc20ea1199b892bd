//! Status codes, as plain numbers, and their classes.
use vstd::prelude::*;

verus! {

/// 400 Bad Request
pub const BAD_REQUEST: u16 = 400;

/// 403 Forbidden
pub const FORBIDDEN: u16 = 403;

/// 404 Not Found
pub const NOT_FOUND: u16 = 404;

/// 405 Method Not Allowed
pub const METHOD_NOT_ALLOWED: u16 = 405;

/// 411 Length Required
pub const LENGTH_REQUIRED: u16 = 411;

/// 413 Payload Too Large
pub const PAYLOAD_TOO_LARGE: u16 = 413;

/// 415 Unsupported Media Type
pub const UNSUPPORTED_MEDIA_TYPE: u16 = 415;

/// 500 Internal Server Error
pub const INTERNAL_SERVER_ERROR: u16 = 500;

/// The class of a status code, by its hundreds.
#[derive(Clone, Copy, Debug, PartialEq, Eq, Structural)]
pub enum StatusClass {
    /// 200 to 299.
    Success,
    /// 400 to 499.
    ClientError,
    /// 500 to 599.
    ServerError,
    /// Anything else: informational, redirection, or out of range.
    Other,
}

/// The class a status code falls in.
pub open spec fn spec_class(code: u16) -> StatusClass {
    if 200 <= code < 300 {
        StatusClass::Success
    } else if 500 <= code < 600 {
        StatusClass::ServerError
    } else if 400 <= code < 500 {
        StatusClass::ClientError
    } else {
        StatusClass::Other
    }
}

/// Classifies a status code.
pub fn class(code: u16) -> (class: StatusClass)
    ensures
        class == spec_class(code),
{
    if 200 <= code && code < 300 {
        StatusClass::Success
    } else if 500 <= code && code < 600 {
        StatusClass::ServerError
    } else if 400 <= code && code < 500 {
        StatusClass::ClientError
    } else {
        StatusClass::Other
    }
}

} // verus!
