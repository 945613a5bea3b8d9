//! Ending the session a request was made with.
use vstd::prelude::*;

use crate::db::Error as DbError;

verus! {

/// The answer to a logout.
pub struct LogoutResponse {
    pub success: bool,
}

/// Why a logout failed.
#[derive(Clone, PartialEq, Eq, Debug)]
pub enum Error {
    Database(DbError),
}

impl Error {
    /// The status code answered for the error: the database error's own.
    pub fn status_code(&self) -> (r: u16)
        ensures
            r == match *self {
                Error::Database(e) => crate::db::error_status(e),
            },
    {
        match self {
            Error::Database(e) => e.status_code(),
        }
    }
}

/// The answer once the session was deleted.
pub fn logged_out() -> (r: LogoutResponse)
    ensures
        r.success,
{
    LogoutResponse { success: true }
}

} // verus!
