//! Extending the session a request was made with, which the web interface
//! does while it is open.
use vstd::prelude::*;

use crate::db::Error as DbError;
use crate::status;

verus! {

/// When the extended session now expires, in seconds since the Unix epoch.
pub struct ExtendResponse {
    pub expires: i64,
}

/// Why a session could not be extended.
#[derive(Clone, PartialEq, Eq, Debug)]
pub enum Error {
    Database(DbError),
    /// The session no longer exists.
    InvalidSession,
}

impl Error {
    /// The status code answered for the error: the database error's own,
    /// 400 for a session that no longer exists.
    pub fn status_code(&self) -> (r: u16)
        ensures
            r == match *self {
                Error::Database(e) => crate::db::error_status(e),
                Error::InvalidSession => status::BAD_REQUEST,
            },
    {
        match self {
            Error::Database(e) => e.status_code(),
            Error::InvalidSession => status::BAD_REQUEST,
        }
    }
}

/// The answer once the session's expiry was moved to `expires`, where a
/// session was found to extend.
pub fn extend_outcome(extended: bool, expires: i64) -> (r: Result<ExtendResponse, Error>)
    ensures
        extended ==> (r matches Ok(resp) && resp.expires == expires),
        !extended ==> r == Err::<ExtendResponse, Error>(Error::InvalidSession),
{
    if extended {
        Ok(ExtendResponse { expires })
    } else {
        Err(Error::InvalidSession)
    }
}

} // verus!
