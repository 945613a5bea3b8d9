//! The members of an organisation and the permissions they hold on it.
use vstd::prelude::*;

use crate::db::users::User;
use crate::db::Error as DbError;
use crate::permissions::UserPermission;
use crate::status;
use crate::uuid::Uuid;

verus! {

/// A request to add a member, or to change a member's permissions.
pub struct PutOrPatchRequest {
    pub user_uuid: Uuid,
    pub permissions: UserPermission,
}

/// A request to remove a member.
pub struct DeleteRequest {
    pub user_uuid: Uuid,
}

/// Why a change to the members failed.
#[derive(Clone, PartialEq, Eq, Debug)]
pub enum Error {
    Database(DbError),
    /// The user was removed before their permissions could be changed.
    UpdateConflictRemoved,
    /// No user has the identifier given.
    InvalidUserId,
}

impl Error {
    /// The status code answered for the error: the database error's own,
    /// 409 for a conflict, 400 for an unknown user.
    pub fn status_code(&self) -> (r: u16)
        ensures
            r == match *self {
                Error::Database(e) => crate::db::error_status(e),
                Error::UpdateConflictRemoved => status::CONFLICT,
                Error::InvalidUserId => status::BAD_REQUEST,
            },
    {
        match self {
            Error::Database(e) => e.status_code(),
            Error::UpdateConflictRemoved => status::CONFLICT,
            Error::InvalidUserId => status::BAD_REQUEST,
        }
    }
}

/// The user a request names, or `InvalidUserId`.
pub fn action_user(found: Option<User>) -> (r: Result<User, Error>)
    ensures
        match found {
            Some(u) => r == Ok::<User, Error>(u),
            None => r == Err::<User, Error>(Error::InvalidUserId),
        },
{
    match found {
        Some(u) => Ok(u),
        None => Err(Error::InvalidUserId),
    }
}

/// The outcome of changing a member's permissions: no row changed means
/// the member was removed meanwhile.
pub fn update_outcome(affected_rows: usize) -> (r: Result<(), Error>)
    ensures
        affected_rows == 0 ==> r == Err::<(), Error>(Error::UpdateConflictRemoved),
        affected_rows != 0 ==> r == Ok::<(), Error>(()),
{
    if affected_rows == 0 {
        Err(Error::UpdateConflictRemoved)
    } else {
        Ok(())
    }
}

} // verus!
