//! Searching users, as the member pickers do.
use vstd::prelude::*;

use crate::db::users::User;
use crate::db::Error as DbError;
use crate::status;
use crate::uuid::Uuid;

verus! {

/// A search query.
pub struct RequestParams {
    pub q: String,
}

/// A user found.
pub struct ResponseUser {
    pub user_uuid: Uuid,
    pub display_name: String,
    pub picture_url: Option<String>,
}

/// The users found.
pub struct Response {
    pub users: Vec<ResponseUser>,
}

impl ResponseUser {
    /// The entry shown for a user found.
    pub fn from(user: User) -> (r: ResponseUser)
        ensures
            r.user_uuid == user.uuid.0,
            r.display_name@ == crate::db::users::display_name_of(user),
            r.picture_url == user.picture_url,
    {
        let display_name = String::from_str(user.display_name());
        ResponseUser { user_uuid: user.uuid.0, display_name, picture_url: user.picture_url }
    }
}

/// Why the request failed.
#[derive(Clone, PartialEq, Eq, Debug)]
pub enum Error {
    Database(DbError),
}

impl Error {
    /// The status code answered for the error: 500.
    pub fn status_code(&self) -> (r: u16)
        ensures
            r == status::INTERNAL_SERVER_ERROR,
    {
        status::INTERNAL_SERVER_ERROR
    }
}

} // verus!
