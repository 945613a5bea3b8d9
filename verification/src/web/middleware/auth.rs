//! Authenticating the cargo API by the key in the request's path.
use vstd::prelude::*;

use super::Rejection;
use crate::db::users::{User, UserSession};
use crate::status;
use crate::text::str_eq;

verus! {

/// The layer that authenticates requests by the key in their path.
pub struct AuthMiddleware<S>(pub S);

/// The value of the path parameter `key`, or nothing.
pub open spec fn key_param(params: Seq<(String, String)>) -> Seq<char>
    decreases params.len(),
{
    if params.len() == 0 {
        Seq::<char>::empty()
    } else if params[0].0@ == "key"@ {
        params[0].1@
    } else {
        key_param(params.drop_first())
    }
}

/// The session key a request's path gives, or an empty one.
pub fn session_key(params: &Vec<(String, String)>) -> (r: String)
    ensures
        r@ == key_param(params@),
{
    let mut i: usize = 0;
    assert(params@.skip(0) =~= params@);
    while i < params.len()
        invariant
            i <= params@.len(),
            key_param(params@) == key_param(params@.skip(i as int)),
        decreases params@.len() - i,
    {
        if str_eq(params[i].0.as_str(), "key") {
            return params[i].1.clone();
        }
        assert(params@.skip(i as int).drop_first() =~= params@.skip(i + 1));
        i = i + 1;
    }
    String::new()
}

/// Who a request comes from, given the session its key found: an unknown
/// or expired key is refused with 401.
pub fn authenticate(found: Option<(UserSession, User)>) -> (r: Result<(UserSession, User), Rejection>)
    ensures
        match found {
            Some(pair) => r == Ok::<(UserSession, User), Rejection>(pair),
            None => r matches Err(rej) && rej.status == status::UNAUTHORIZED && rej.message@
                == "Expired auth token"@,
        },
{
    match found {
        Some(pair) => Ok(pair),
        None => Err(Rejection { status: status::UNAUTHORIZED, message: "Expired auth token" }),
    }
}

} // verus!
