//! A crate's page: its metadata and its versions.
use vstd::prelude::*;

use crate::db::crates::Crate;
use crate::db::users::{display_name_of, User};
use crate::db::Error as DbError;
use crate::permissions::UserPermission;
use crate::types::CrateVersion;
use crate::uuid::Uuid;

verus! {

/// Who uploaded a version.
pub struct ResponseVersionUploader {
    pub uuid: Uuid,
    pub display_name: String,
    pub picture_url: Option<String>,
}

/// A crate's metadata.
pub struct ResponseInfo {
    pub name: String,
    pub readme: Option<String>,
    pub description: Option<String>,
    pub repository: Option<String>,
    pub homepage: Option<String>,
    pub documentation: Option<String>,
}

/// A version of the crate.
pub struct ResponseVersion {
    pub inner: CrateVersion,
    pub size: i32,
    /// Seconds since the Unix epoch.
    pub created_at: i64,
    pub uploader: ResponseVersionUploader,
}

/// A crate's page.
pub struct Response {
    pub info: ResponseInfo,
    pub versions: Vec<ResponseVersion>,
    pub permissions: UserPermission,
}

impl ResponseInfo {
    /// The metadata shown for a crate.
    pub fn from(crate_: &Crate) -> (r: ResponseInfo)
        ensures
            r.name == crate_.name,
            r.readme == crate_.readme,
            r.description == crate_.description,
            r.repository == crate_.repository,
            r.homepage == crate_.homepage,
            r.documentation == crate_.documentation,
    {
        ResponseInfo {
            name: crate_.name.clone(),
            readme: crate::types::clone_option_string(&crate_.readme),
            description: crate::types::clone_option_string(&crate_.description),
            repository: crate::types::clone_option_string(&crate_.repository),
            homepage: crate::types::clone_option_string(&crate_.homepage),
            documentation: crate::types::clone_option_string(&crate_.documentation),
        }
    }
}

impl ResponseVersionUploader {
    /// The uploader shown for a user: their identifier, the name shown for
    /// them and their picture.
    pub fn from(user: User) -> (r: ResponseVersionUploader)
        ensures
            r.uuid == user.uuid.0,
            r.display_name@ == display_name_of(user),
            r.picture_url == user.picture_url,
    {
        let display_name = String::from_str(user.display_name());
        ResponseVersionUploader { uuid: user.uuid.0, display_name, picture_url: user.picture_url }
    }
}

/// Why the request failed.
#[derive(Clone, PartialEq, Eq, Debug)]
pub enum Error {
    Database(DbError),
}

impl Error {
    /// The status code answered for the error: the database error's own.
    pub fn status_code(&self) -> (r: u16)
        ensures
            r == match *self {
                Error::Database(e) => crate::db::error_status(e),
            },
    {
        match self {
            Error::Database(e) => e.status_code(),
        }
    }
}

} // verus!
