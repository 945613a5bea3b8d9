//! Logging in with a username alone, for the cargo API.
use vstd::prelude::*;

use crate::db::users::User;
use crate::db::Error as DbError;
use crate::status;

verus! {

/// A login request.
pub struct Request {
    pub username: String,
    pub password: String,
}

/// The key a login gives, and when it expires, in seconds since the Unix
/// epoch.
pub struct Response {
    pub key: String,
    pub expires: i64,
}

/// Why a login failed.
#[derive(Clone, PartialEq, Eq, Debug)]
pub enum Error {
    Database(DbError),
    /// No user has that username.
    UnknownUser,
}

impl Error {
    /// The status code answered for the error: 500 for the database, 403
    /// for an unknown user.
    pub fn status_code(&self) -> (r: u16)
        ensures
            r == match *self {
                Error::Database(_) => status::INTERNAL_SERVER_ERROR,
                Error::UnknownUser => status::FORBIDDEN,
            },
    {
        match self {
            Error::Database(_) => status::INTERNAL_SERVER_ERROR,
            Error::UnknownUser => status::FORBIDDEN,
        }
    }
}

/// The user the username names, or `UnknownUser`.
pub fn found_user(found: Option<User>) -> (r: Result<User, Error>)
    ensures
        match found {
            Some(u) => r == Ok::<User, Error>(u),
            None => r == Err::<User, Error>(Error::UnknownUser),
        },
{
    match found {
        Some(u) => Ok(u),
        None => Err(Error::UnknownUser),
    }
}

} // verus!
