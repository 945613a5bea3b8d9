//! Searching the crates a user can see.
use vstd::prelude::*;

use crate::db::Error as DbError;
use crate::permissions::UserPermission;
use crate::status;

verus! {

/// A search query.
pub struct RequestParams {
    pub q: String,
}

/// A crate found.
pub struct ResponseCrate {
    pub organisation: String,
    pub name: String,
    pub description: Option<String>,
    pub version: String,
    pub homepage: Option<String>,
    pub repository: Option<String>,
    pub permissions: UserPermission,
}

/// The crates found.
pub struct Response {
    pub crates: Vec<ResponseCrate>,
}

/// Why the request failed.
#[derive(Clone, PartialEq, Eq, Debug)]
pub enum Error {
    Database(DbError),
}

impl Error {
    /// The status code answered for the error: 500.
    pub fn status_code(&self) -> (r: u16)
        ensures
            r == status::INTERNAL_SERVER_ERROR,
    {
        status::INTERNAL_SERVER_ERROR
    }
}

} // verus!
