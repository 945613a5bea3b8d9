//! Logging in with a username alone, for the web interface.
use vstd::prelude::*;

verus! {

/// A login request.
pub struct Request {
    pub username: String,
    pub password: String,
}

/// The session key a login gives, and when it expires, in seconds since
/// the Unix epoch.
pub struct Response {
    pub key: String,
    pub expires: i64,
}

} // verus!
