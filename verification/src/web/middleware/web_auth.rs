//! Authenticating the web API by the bearer token in the authorization
//! header.
use vstd::prelude::*;

use super::Rejection;
use crate::db::users::{User, UserSession};
use crate::status;

verus! {

/// The layer that authenticates requests by their bearer token.
pub struct WebAuthMiddleware<S>(pub S);

/// Who a request comes from, given the session its token found: an unknown
/// or expired token is refused, and so is a session made for SSH, which the
/// web API does not take.
pub fn authenticate(found: Option<(UserSession, User)>) -> (r: Result<(UserSession, User), Rejection>)
    ensures
        match found {
            None => r matches Err(rej) && rej.status == status::UNAUTHORIZED && rej.message@
                == "Expired auth token"@,
            Some(pair) => if pair.0.user_ssh_key_id is Some {
                r matches Err(rej) && rej.status == status::UNAUTHORIZED && rej.message@
                    == "Invalid auth token"@
            } else {
                r == Ok::<(UserSession, User), Rejection>(pair)
            },
        },
{
    match found {
        None => Err(Rejection { status: status::UNAUTHORIZED, message: "Expired auth token" }),
        Some(pair) => if pair.0.user_ssh_key_id.is_some() {
            Err(Rejection { status: status::UNAUTHORIZED, message: "Invalid auth token" })
        } else {
            Ok(pair)
        },
    }
}

} // verus!
