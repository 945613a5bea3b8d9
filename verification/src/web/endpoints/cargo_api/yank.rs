//! Yanking a version of a crate, and taking the yank back.
use vstd::prelude::*;

use crate::db::Error as DbError;

verus! {

/// The answer to a yank or an unyank.
pub struct Response {
    pub ok: bool,
}

/// Why a yank failed.
#[derive(Clone, PartialEq, Eq, Debug)]
pub enum Error {
    Database(DbError),
}

impl Error {
    /// The status code answered for the error: the database error's own.
    pub fn status_code(&self) -> (r: u16)
        ensures
            r == match *self {
                Error::Database(e) => crate::db::error_status(e),
            },
    {
        match self {
            Error::Database(e) => e.status_code(),
        }
    }
}

/// The answer once the version's yanked flag was set.
pub fn yanked() -> (r: Response)
    ensures
        r.ok,
{
    Response { ok: true }
}

} // verus!
