//! The layers every request passes through: who it comes from, whether it
//! is authenticated, whether it is rate limited, and how it is logged.
pub mod auth;
pub mod ip;
pub mod logging;
pub mod rate_limit;
pub mod web_auth;

use vstd::prelude::*;

verus! {

/// A refusal answered by a layer before the request reaches its handler.
#[derive(Clone, Copy, PartialEq, Eq, Debug)]
pub struct Rejection {
    pub status: u16,
    pub message: &'static str,
}

} // verus!
