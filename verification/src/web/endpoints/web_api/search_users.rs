//! Searching users by username.
use vstd::prelude::*;

use crate::db::Error as DbError;
use crate::status;

verus! {

/// A search query.
pub struct RequestParams {
    pub q: String,
}

/// A user found.
pub struct ResponseUser {
    pub user_id: i32,
    pub username: String,
}

/// The users found.
pub struct Response {
    pub users: Vec<ResponseUser>,
}

/// Why the request failed.
#[derive(Clone, PartialEq, Eq, Debug)]
pub enum Error {
    Database(DbError),
}

impl Error {
    /// The status code answered for the error: 500.
    pub fn status_code(&self) -> (r: u16)
        ensures
            r == status::INTERNAL_SERVER_ERROR,
    {
        status::INTERNAL_SERVER_ERROR
    }
}

} // verus!
