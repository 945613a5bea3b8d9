//! Ending one of a user's sessions.
use vstd::prelude::*;

use crate::db::Error as DbError;
use crate::status;
use crate::uuid::Uuid;

verus! {

/// A request to end a session.
pub struct Request {
    pub uuid: Uuid,
}

/// The answer to ending a session.
pub struct Response {
    pub success: bool,
}

/// Why a session could not be ended.
#[derive(Clone, PartialEq, Eq, Debug)]
pub enum Error {
    Database(DbError),
    /// No session of the user has the identifier given.
    UnknownSession,
}

impl Error {
    /// The status code answered for the error: the database error's own,
    /// 400 for an unknown session.
    pub fn status_code(&self) -> (r: u16)
        ensures
            r == match *self {
                Error::Database(e) => crate::db::error_status(e),
                Error::UnknownSession => status::BAD_REQUEST,
            },
    {
        match self {
            Error::Database(e) => e.status_code(),
            Error::UnknownSession => status::BAD_REQUEST,
        }
    }
}

/// The answer once the deletion ran: a session was deleted, or none had
/// the identifier.
pub fn delete_outcome(deleted: bool) -> (r: Result<Response, Error>)
    ensures
        deleted ==> (r matches Ok(resp) && resp.success),
        !deleted ==> r == Err::<Response, Error>(Error::UnknownSession),
{
    if deleted {
        Ok(Response { success: true })
    } else {
        Err(Error::UnknownSession)
    }
}

} // verus!
