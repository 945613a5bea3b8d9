//! Creating an organisation.
use vstd::prelude::*;

use crate::db::Error as DbError;

verus! {

/// A request to create an organisation.
pub struct PutRequest {
    pub name: String,
    pub description: String,
    pub public: bool,
}

/// Why the request failed.
#[derive(Clone, PartialEq, Eq, Debug)]
pub enum Error {
    Database(DbError),
}

impl Error {
    /// The status code answered for the error: the database error's own.
    pub fn status_code(&self) -> (r: u16)
        ensures
            r == match *self {
                Error::Database(e) => crate::db::error_status(e),
            },
    {
        match self {
            Error::Database(e) => e.status_code(),
        }
    }
}

} // verus!
