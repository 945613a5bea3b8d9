//! The owners of a crate, as `cargo owner` lists them: everyone who may
//! manage the crate's members.
use vstd::prelude::*;

use crate::db::users::User;
use crate::db::Error as DbError;

verus! {

/// An owner as cargo lists it.
pub struct GetResponseUser {
    pub login: String,
    pub name: Option<String>,
}

/// The owners of a crate.
pub struct GetResponse {
    pub users: Vec<GetResponseUser>,
}

/// The owners answered for the users who may manage a crate: each by
/// username, without a name.
pub fn owners_response(users: Vec<User>) -> (r: GetResponse)
    ensures
        r.users@.len() == users@.len(),
        forall|i: int|
            0 <= i < users@.len() ==> r.users@[i].login == #[trigger] users@[i].username
                && r.users@[i].name is None,
{
    let mut out: Vec<GetResponseUser> = Vec::new();
    let mut i: usize = 0;
    while i < users.len()
        invariant
            i <= users@.len(),
            out@.len() == i,
            forall|j: int|
                0 <= j < i ==> out@[j].login == #[trigger] users@[j].username && out@[j].name is None,
        decreases users@.len() - i,
    {
        out.push(GetResponseUser { login: users[i].username.clone(), name: None });
        i = i + 1;
    }
    GetResponse { users: out }
}

/// Why the request failed.
#[derive(Clone, PartialEq, Eq, Debug)]
pub enum Error {
    Database(DbError),
}

impl Error {
    /// The status code answered for the error: the database error's own.
    pub fn status_code(&self) -> (r: u16)
        ensures
            r == match *self {
                Error::Database(e) => crate::db::error_status(e),
            },
    {
        match self {
            Error::Database(e) => e.status_code(),
        }
    }
}

} // verus!
