//! The organisations a user belongs to.
use vstd::prelude::*;

use crate::db::organisations::Organisation;
use crate::db::Error as DbError;

verus! {

/// An organisation as listed.
pub struct ResponseOrganisation {
    pub name: String,
    pub description: String,
}

/// The organisations listed.
pub struct Response {
    pub organisations: Vec<ResponseOrganisation>,
}

impl ResponseOrganisation {
    /// The entry listed for an organisation.
    pub fn from(org: Organisation) -> (r: ResponseOrganisation)
        ensures
            r.name == org.name,
            r.description == org.description,
    {
        ResponseOrganisation { name: org.name, description: org.description }
    }
}

/// Why the request failed.
#[derive(Clone, PartialEq, Eq, Debug)]
pub enum Error {
    Database(DbError),
}

impl Error {
    /// The status code answered for the error: the database error's own.
    pub fn status_code(&self) -> (r: u16)
        ensures
            r == match *self {
                Error::Database(e) => crate::db::error_status(e),
            },
    {
        match self {
            Error::Database(e) => e.status_code(),
        }
    }
}

} // verus!
