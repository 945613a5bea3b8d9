//! Logging in to the web interface, with a password or through an OpenID
//! Connect provider, and the sessions logins make.
pub mod extend;
pub mod logout;
pub mod openid;
pub mod password;

use vstd::prelude::*;

use crate::db::users::User;
use crate::uuid::Uuid;

verus! {

/// How long a session lasts, in seconds, before it must be extended.
pub const SESSION_LIFETIME: i64 = 3600;

/// What a login answers: who logged in, the session key, when it expires
/// (in seconds since the Unix epoch) and the user's picture.
pub struct LoginResponse {
    pub user_uuid: Uuid,
    pub key: String,
    pub expires: i64,
    pub picture_url: Option<String>,
}

/// When a session made or extended at `now` expires: an hour later.
pub fn session_expiry(now: i64) -> (r: i64)
    requires
        now <= i64::MAX - SESSION_LIFETIME,
    ensures
        r == now + SESSION_LIFETIME,
{
    now + SESSION_LIFETIME
}

/// What a login of `user` answers, with the key of the session made for
/// them.
pub fn login_response(user: User, key: String, expires: i64) -> (r: LoginResponse)
    ensures
        r.user_uuid == user.uuid.0,
        r.key == key,
        r.expires == expires,
        r.picture_url == user.picture_url,
{
    LoginResponse { user_uuid: user.uuid.0, key, expires, picture_url: user.picture_url }
}

} // verus!
