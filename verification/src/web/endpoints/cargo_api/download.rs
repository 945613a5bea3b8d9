//! Downloading a version of a crate: its file from the disk, or a link to
//! it in S3.
use vstd::prelude::*;

use crate::db::crates::CrateVersion;
use crate::db::Error as DbError;
use crate::fs::{parse_reference, FilePointer, FileReference};
use crate::status;

verus! {

/// The answer to a download: the file's bytes, or a link to them.
pub enum ResponseOrRedirect {
    Response(Vec<u8>),
    Redirect(String),
}

/// Why a download failed.
#[derive(Clone, PartialEq, Eq, Debug)]
pub enum Error {
    Database(DbError),
    /// The crate file could not be found or read.
    File(crate::fs::Error),
    /// The crate has no such version.
    NoVersion,
}

impl Error {
    /// The status code answered for the error: the database error's own,
    /// 500 for the file, 404 for a missing version.
    pub fn status_code(&self) -> (r: u16)
        ensures
            r == match *self {
                Error::Database(e) => crate::db::error_status(e),
                Error::File(_) => status::INTERNAL_SERVER_ERROR,
                Error::NoVersion => status::NOT_FOUND,
            },
    {
        match self {
            Error::Database(e) => e.status_code(),
            Error::File(_) => status::INTERNAL_SERVER_ERROR,
            Error::NoVersion => status::NOT_FOUND,
        }
    }
}

/// The stored file of the version found: `NoVersion` where there is none,
/// a file error where its reference cannot be read.
pub fn version_file(found: Option<CrateVersion>) -> (r: Result<FileReference, Error>)
    ensures
        match found {
            None => r == Err::<FileReference, Error>(Error::NoVersion),
            Some(v) => match parse_reference(v.filesystem_object@) {
                Ok(f) => r == Ok::<FileReference, Error>(f),
                Err(e) => r == Err::<FileReference, Error>(Error::File(e)),
            },
        },
{
    let version = match found {
        None => return Err(Error::NoVersion),
        Some(v) => v,
    };
    match FileReference::from_str(version.filesystem_object.as_str()) {
        Ok(f) => Ok(f),
        Err(e) => Err(Error::File(e)),
    }
}

impl ResponseOrRedirect {
    /// The answer for where the file is: its bytes, or a redirect to the
    /// link.
    pub fn from_pointer(pointer: FilePointer) -> (r: ResponseOrRedirect)
        ensures
            match pointer {
                FilePointer::Content(c) => r == ResponseOrRedirect::Response(c),
                FilePointer::Redirect(u) => r == ResponseOrRedirect::Redirect(u),
            },
    {
        match pointer {
            FilePointer::Content(c) => ResponseOrRedirect::Response(c),
            FilePointer::Redirect(u) => ResponseOrRedirect::Redirect(u),
        }
    }
}

} // verus!
