//! An organisation's page: its crates and its members.
use vstd::prelude::*;

use crate::db::users::User;
use crate::db::Error as DbError;
use crate::permissions::UserPermission;
use crate::uuid::Uuid;

verus! {

/// A crate of the organisation.
pub struct ResponseCrate {
    pub name: String,
    pub description: Option<String>,
}

/// A member of the organisation, with their permissions where the viewer
/// may see them.
pub struct ResponseUser {
    pub uuid: Uuid,
    pub display_name: String,
    pub picture_url: Option<String>,
    pub permissions: Option<UserPermission>,
}

/// An organisation's page.
pub struct Response {
    pub description: String,
    pub possible_permissions: Option<UserPermission>,
    pub crates: Vec<ResponseCrate>,
    pub members: Vec<ResponseUser>,
    pub public: bool,
}

impl ResponseUser {
    /// The entry shown for a member: with their permissions only where the
    /// viewer may manage the organisation's users.
    pub fn from(user: User, permissions: UserPermission, can_manage_users: bool) -> (r: ResponseUser)
        ensures
            r.uuid == user.uuid.0,
            r.display_name@ == crate::db::users::display_name_of(user),
            r.picture_url == user.picture_url,
            r.permissions == (if can_manage_users {
                Some(permissions)
            } else {
                None
            }),
    {
        let display_name = String::from_str(user.display_name());
        ResponseUser {
            uuid: user.uuid.0,
            display_name,
            picture_url: user.picture_url,
            permissions: if can_manage_users {
                Some(permissions)
            } else {
                None
            },
        }
    }
}

/// Why the request failed.
#[derive(Clone, PartialEq, Eq, Debug)]
pub enum Error {
    Database(DbError),
}

impl Error {
    /// The status code answered for the error: the database error's own.
    pub fn status_code(&self) -> (r: u16)
        ensures
            r == match *self {
                Error::Database(e) => crate::db::error_status(e),
            },
    {
        match self {
            Error::Database(e) => e.status_code(),
        }
    }
}

} // verus!
