//! Limiting how often a client may call the API: each route costs some
//! cells of the client's quota.
use vstd::prelude::*;

use super::Rejection;
use crate::status;

verus! {

/// How many requests pass between two clean-ups of the clients not seen for
/// a while.
pub const CLEAN_UP_EVERY: usize = 500;

/// The rate limiter shared by the routes: it counts the requests it saw.
pub struct RateLimit {
    pub counter: usize,
}

/// The rate limiter applied to one route, at a cost.
pub struct RateLimitLayer {
    pub cost: u32,
}

impl RateLimit {
    /// A limiter that saw no request.
    pub fn new() -> (r: RateLimit)
        ensures
            r.counter == 0,
    {
        RateLimit { counter: 0 }
    }

    /// The limiter for a route whose calls cost `cost` cells; the cost is
    /// never zero.
    pub fn with_cost(&self, cost: u32) -> (r: RateLimitLayer)
        requires
            cost > 0,
        ensures
            r.cost == cost,
    {
        RateLimitLayer { cost }
    }

    /// Counts a request that passed the limit; says whether the clients not
    /// seen for a while are to be forgotten now, which is every 500th
    /// request, starting with the first. The count wraps around.
    pub fn count_request(&mut self) -> (r: bool)
        ensures
            r == (old(self).counter % CLEAN_UP_EVERY == 0),
            final(self).counter == (if old(self).counter == usize::MAX {
                0
            } else {
                (old(self).counter + 1) as usize
            }),
    {
        let clean = self.counter % CLEAN_UP_EVERY == 0;
        self.counter = if self.counter == usize::MAX {
            0
        } else {
            self.counter + 1
        };
        clean
    }
}

/// The answer for a client over its quota.
pub fn rate_limited() -> (r: Rejection)
    ensures
        r.status == status::TOO_MANY_REQUESTS,
        r.message@ == "You are being rate limited. Please wait a bit and try again."@,
{
    Rejection {
        status: status::TOO_MANY_REQUESTS,
        message: "You are being rate limited. Please wait a bit and try again.",
    }
}

} // verus!
