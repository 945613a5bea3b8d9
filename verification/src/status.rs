//! HTTP status codes, as the numbers the responses carry.
use vstd::prelude::*;

verus! {

/// 400 Bad Request.
pub const BAD_REQUEST: u16 = 400;
/// 401 Unauthorized.
pub const UNAUTHORIZED: u16 = 401;
/// 403 Forbidden.
pub const FORBIDDEN: u16 = 403;
/// 404 Not Found.
pub const NOT_FOUND: u16 = 404;
/// 409 Conflict.
pub const CONFLICT: u16 = 409;
/// 429 Too Many Requests.
pub const TOO_MANY_REQUESTS: u16 = 429;
/// 500 Internal Server Error.
pub const INTERNAL_SERVER_ERROR: u16 = 500;
/// 502 Bad Gateway.
pub const BAD_GATEWAY: u16 = 502;

} // verus!
