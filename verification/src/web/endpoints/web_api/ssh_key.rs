//! The SSH keys a user logs in to the Git server with.
use vstd::prelude::*;

use crate::db::Error as DbError;
use crate::status;

verus! {

/// A request to add an SSH key, in the `authorized_keys` format.
pub struct PutRequest {
    pub key: String,
}

/// Why a change to the keys failed.
#[derive(Clone, PartialEq, Eq, Debug)]
pub enum Error {
    Database(DbError),
    /// The key given could not be read.
    KeyParse(DbError),
    /// The key named does not exist.
    NonExistentKey,
}

impl Error {
    /// The status code answered for the error: 500 for the database, 400
    /// for a bad or unknown key.
    pub fn status_code(&self) -> (r: u16)
        ensures
            r == match *self {
                Error::Database(_) => status::INTERNAL_SERVER_ERROR,
                Error::KeyParse(_) | Error::NonExistentKey => status::BAD_REQUEST,
            },
    {
        match self {
            Error::Database(_) => status::INTERNAL_SERVER_ERROR,
            Error::KeyParse(_) | Error::NonExistentKey => status::BAD_REQUEST,
        }
    }
}

/// The answer once the key was stored: a key that could not be read is
/// reported as such.
pub fn put_outcome(stored: Result<(), DbError>) -> (r: Result<(), Error>)
    ensures
        match stored {
            Ok(()) => r == Ok::<(), Error>(()),
            Err(DbError::KeyParse) => r == Err::<(), Error>(Error::KeyParse(DbError::KeyParse)),
            Err(e) => r == Err::<(), Error>(Error::Database(e)),
        },
{
    match stored {
        Ok(()) => Ok(()),
        Err(DbError::KeyParse) => Err(Error::KeyParse(DbError::KeyParse)),
        Err(e) => Err(Error::Database(e)),
    }
}

/// The answer once the deletion ran: a key was deleted, or none had the
/// identifier.
pub fn delete_outcome(deleted: bool) -> (r: Result<(), Error>)
    ensures
        deleted ==> r == Ok::<(), Error>(()),
        !deleted ==> r == Err::<(), Error>(Error::NonExistentKey),
{
    if deleted {
        Ok(())
    } else {
        Err(Error::NonExistentKey)
    }
}

} // verus!
