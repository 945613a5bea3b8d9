//! The registry's records: users, organisations, crates and their versions,
//! who holds which permission on them, and the errors of working with them.
pub mod crates;
pub mod organisations;
pub mod postgres;
pub mod server_private_key;
pub mod sqlite;
pub mod users;

use vstd::prelude::*;

use crate::permissions::{bits_contain, UserPermission, VISIBLE_BIT};
use crate::status;

verus! {

/// Why a database operation failed.
#[derive(Clone, PartialEq, Eq, Debug)]
pub enum Error {
    /// The connection URI is not an `sqlite://` URI.
    SqliteConnectionUri,
    /// The connection URI is neither a `postgres://` nor a `postgresql://` URI.
    PostgresConnectionUri,
    /// The connection pool could not be set up or give a connection.
    Connection,
    /// The schema could not be brought up to date.
    MigrationError,
    /// A query failed.
    Query,
    /// The task running a query failed.
    TaskJoin,
    /// An SSH key could not be read.
    KeyParse,
    /// The user lacks this permission on the crate.
    MissingCratePermission(UserPermission),
    /// The user lacks this permission on the organisation.
    MissingOrganisationPermission(UserPermission),
    /// The requested crate does not exist.
    MissingCrate,
    /// The requested organisation does not exist.
    MissingOrganisation,
    /// This version of the crate already exists.
    VersionConflict(String),
    /// The username is already taken.
    UsernameTaken,
}

/// The status code answered for an error: a missing crate, or a missing
/// permission that includes `VISIBLE`, is 404 so that what the user cannot
/// see stays hidden; another missing permission is 403; an unreadable key
/// or a version conflict is 400; anything else is 500.
pub open spec fn error_status(e: Error) -> u16 {
    match e {
        Error::MissingCrate => status::NOT_FOUND,
        Error::MissingCratePermission(p) => if bits_contain(p.bits, VISIBLE_BIT) {
            status::NOT_FOUND
        } else {
            status::FORBIDDEN
        },
        Error::MissingOrganisationPermission(p) => if bits_contain(p.bits, VISIBLE_BIT) {
            status::NOT_FOUND
        } else {
            status::FORBIDDEN
        },
        Error::KeyParse | Error::VersionConflict(_) => status::BAD_REQUEST,
        _ => status::INTERNAL_SERVER_ERROR,
    }
}

impl Error {
    /// The status code answered for the error.
    pub fn status_code(&self) -> (r: u16)
        ensures
            r == error_status(*self),
    {
        match self {
            Error::MissingCrate => status::NOT_FOUND,
            Error::MissingCratePermission(v) | Error::MissingOrganisationPermission(v) => {
                if v.contains(UserPermission::visible()) {
                    status::NOT_FOUND
                } else {
                    status::FORBIDDEN
                }
            },
            Error::KeyParse | Error::VersionConflict(_) => status::BAD_REQUEST,
            _ => status::INTERNAL_SERVER_ERROR,
        }
    }
}

/// What an insert into the database did.
#[derive(Clone, Copy, PartialEq, Eq, Structural, Debug)]
pub enum InsertOutcome {
    /// The row was written.
    Inserted,
    /// A row with the same unique key was already there.
    UniqueViolation,
    /// The query failed otherwise.
    Failed,
}

} // verus!
