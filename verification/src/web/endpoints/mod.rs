//! The answers of the web API's endpoints.
pub mod cargo_api;
pub mod login;
pub mod web_api;

use vstd::prelude::*;

verus! {

/// The body answered when a request failed, or, with no error, succeeded
/// with nothing else to say.
pub struct ErrorResponse {
    pub error: Option<String>,
}

impl ErrorResponse {
    /// The answer for a request that succeeded.
    pub fn success() -> (r: ErrorResponse)
        ensures
            r.error is None,
    {
        ErrorResponse { error: None }
    }

    /// The answer for a request that failed with `message`.
    pub fn from_message(message: &str) -> (r: ErrorResponse)
        ensures
            r.error matches Some(m) && m@ == message@,
    {
        ErrorResponse { error: Some(String::from_str(message)) }
    }
}

} // verus!
