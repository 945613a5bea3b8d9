//! Crates, the permissions a user holds on them, and what each operation on
//! a crate requires.
use vstd::prelude::*;

use super::{error_status, Error, InsertOutcome};
use crate::fs::{reference_text, FileReference};
use crate::permissions::{
    bits_contain, UserPermission, CREATE_CRATE_BIT, MANAGE_USERS_BIT, PUBLISH_VERSION_BIT,
    VISIBLE_BIT, YANK_VERSION_BIT,
};
use crate::status;
use crate::types;

verus! {

/// The permissions a user holds on a crate, as stored.
#[derive(Clone, Copy, PartialEq, Eq, Debug)]
pub struct UserCratePermission {
    pub id: i32,
    pub user_id: i32,
    pub crate_id: i32,
    pub permissions: UserPermission,
}

impl UserCratePermission {
    /// The permissions held through a stored row, or none when there is no
    /// row.
    pub fn held(found: Option<UserCratePermission>) -> (r: UserPermission)
        ensures
            r == (match found {
                Some(p) => p.permissions,
                None => UserPermission { bits: 0 },
            }),
    {
        match found {
            Some(p) => p.permissions,
            None => UserPermission::empty(),
        }
    }
}

/// A crate of an organisation.
#[derive(Clone, PartialEq, Eq, Debug)]
pub struct Crate {
    pub id: i32,
    pub name: String,
    pub organisation_id: i32,
    pub readme: Option<String>,
    pub description: Option<String>,
    pub repository: Option<String>,
    pub homepage: Option<String>,
    pub documentation: Option<String>,
}

/// A crate together with the permissions the requesting user holds on it.
#[derive(Clone, PartialEq, Eq, Debug)]
pub struct CrateWithPermissions {
    pub crate_: Crate,
    pub permissions: UserPermission,
}

/// The operations on a crate that need a permission.
#[derive(Clone, Copy, PartialEq, Eq, Structural, Debug)]
pub enum CrateAction {
    /// Listing the crate's members.
    Members,
    /// Changing a member's permissions.
    UpdatePermissions,
    /// Adding a member.
    InsertPermissions,
    /// Removing a member.
    DeleteMember,
    /// Publishing a version.
    PublishVersion,
    /// Yanking or unyanking a version.
    YankVersion,
}

/// The permission an operation on a crate requires.
pub open spec fn crate_action_requirement(action: CrateAction) -> i32 {
    match action {
        CrateAction::Members | CrateAction::UpdatePermissions | CrateAction::InsertPermissions
        | CrateAction::DeleteMember => MANAGE_USERS_BIT,
        CrateAction::PublishVersion => PUBLISH_VERSION_BIT,
        CrateAction::YankVersion => YANK_VERSION_BIT,
    }
}

/// Which permission bit each operation on a crate needs: yanking needs
/// `YANK_VERSION` (0b100), publishing `PUBLISH_VERSION` (0b10), and the
/// member operations `MANAGE_USERS` (0b1000). So a user is let through
/// exactly when the permissions it holds have that bit set.
pub proof fn lemma_crate_action_bits(action: CrateAction, held: i32)
    ensures
        crate_action_requirement(CrateAction::YankVersion) == 4,
        crate_action_requirement(CrateAction::PublishVersion) == 2,
        crate_action_requirement(CrateAction::Members) == 8,
        crate_action_requirement(CrateAction::UpdatePermissions) == 8,
        crate_action_requirement(CrateAction::InsertPermissions) == 8,
        crate_action_requirement(CrateAction::DeleteMember) == 8,
        bits_contain(held, crate_action_requirement(CrateAction::YankVersion)) <==> held & 4 == 4,
        bits_contain(held, crate_action_requirement(CrateAction::PublishVersion)) <==> held & 2 == 2,
        bits_contain(held, crate_action_requirement(action)) <==> held & crate_action_requirement(
            action,
        ) != 0,
{
    let w = crate_action_requirement(action);
    assert(w == 2 || w == 4 || w == 8);
    assert(held & 2 == 2 <==> held & 2 != 0) by (bit_vector);
    assert(held & 4 == 4 <==> held & 4 != 0) by (bit_vector);
    assert(held & 8 == 8 <==> held & 8 != 0) by (bit_vector);
}

impl CrateAction {
    /// The permission the operation requires.
    pub fn requirement(&self) -> (r: UserPermission)
        ensures
            r.bits == crate_action_requirement(*self),
    {
        match self {
            CrateAction::Members | CrateAction::UpdatePermissions | CrateAction::InsertPermissions
            | CrateAction::DeleteMember => UserPermission::manage_users(),
            CrateAction::PublishVersion => UserPermission::publish_version(),
            CrateAction::YankVersion => UserPermission::yank_version(),
        }
    }
}

impl CrateWithPermissions {
    /// Whether the user may perform `action`: refused with the missing
    /// permission unless the user holds what the operation requires.
    pub fn authorize(&self, action: CrateAction) -> (r: Result<(), Error>)
        ensures
            bits_contain(self.permissions.bits, crate_action_requirement(action)) ==> r is Ok,
            !bits_contain(self.permissions.bits, crate_action_requirement(action)) ==> r == Err::<
                (),
                Error,
            >(Error::MissingCratePermission(UserPermission { bits: crate_action_requirement(action) })),
    {
        let required = action.requirement();
        if self.permissions.contains(required) {
            Ok(())
        } else {
            Err(Error::MissingCratePermission(required))
        }
    }
}

/// What looking a crate up by name answers: the crate if the user may see
/// it, `MissingCrate` if there is none, `MissingCratePermission(VISIBLE)` if
/// the user may not see it.
pub open spec fn lookup_answer(found: Option<(Crate, UserPermission)>) -> Result<
    CrateWithPermissions,
    Error,
> {
    match found {
        None => Err(Error::MissingCrate),
        Some((crate_, permissions)) => if bits_contain(permissions.bits, VISIBLE_BIT) {
            Ok(CrateWithPermissions { crate_, permissions })
        } else {
            Err(Error::MissingCratePermission(UserPermission { bits: VISIBLE_BIT }))
        },
    }
}

impl Crate {
    /// Decides the answer to a lookup by name from what the database found:
    /// the crate with the permissions the user holds on it.
    pub fn find_by_name(found: Option<(Crate, UserPermission)>) -> (r: Result<
        CrateWithPermissions,
        Error,
    >)
        ensures
            r == lookup_answer(found),
    {
        match found {
            None => Err(Error::MissingCrate),
            Some((crate_, permissions)) => {
                if permissions.contains(UserPermission::visible()) {
                    Ok(CrateWithPermissions { crate_, permissions })
                } else {
                    Err(Error::MissingCratePermission(UserPermission::visible()))
                }
            },
        }
    }

    /// Whether a user holding `perms` on an organisation may create a crate
    /// in it: `VISIBLE` is checked first, then `CREATE_CRATE`.
    pub fn create(perms: UserPermission) -> (r: Result<(), Error>)
        ensures
            !bits_contain(perms.bits, VISIBLE_BIT) ==> r == Err::<(), Error>(
                Error::MissingCratePermission(UserPermission { bits: VISIBLE_BIT }),
            ),
            bits_contain(perms.bits, VISIBLE_BIT) && !bits_contain(perms.bits, CREATE_CRATE_BIT)
                ==> r == Err::<(), Error>(
                Error::MissingCratePermission(UserPermission { bits: CREATE_CRATE_BIT }),
            ),
            bits_contain(perms.bits, VISIBLE_BIT) && bits_contain(perms.bits, CREATE_CRATE_BIT)
                ==> r is Ok,
    {
        if !perms.contains(UserPermission::visible()) {
            Err(Error::MissingCratePermission(UserPermission::visible()))
        } else if !perms.contains(UserPermission::create_crate()) {
            Err(Error::MissingCratePermission(UserPermission::create_crate()))
        } else {
            Ok(())
        }
    }
}

/// A crate the user may not see is answered exactly as a crate that does
/// not exist: 404, whichever of the two holds.
pub proof fn lemma_hidden_crate_looks_missing(crate_: Crate, permissions: UserPermission)
    requires
        !bits_contain(permissions.bits, VISIBLE_BIT),
    ensures
        lookup_answer(Some((crate_, permissions))) is Err,
        error_status(lookup_answer(Some((crate_, permissions)))->Err_0) == error_status(
            lookup_answer(None)->Err_0,
        ),
        error_status(lookup_answer(None)->Err_0) == status::NOT_FOUND,
{
    assert(bits_contain(VISIBLE_BIT, VISIBLE_BIT)) by (bit_vector);
}

/// Refusing an operation on a crate the user can see answers 403: the
/// permissions an operation needs never include `VISIBLE`.
pub proof fn lemma_refused_action_forbidden(c: CrateWithPermissions, action: CrateAction)
    requires
        !bits_contain(c.permissions.bits, crate_action_requirement(action)),
    ensures
        error_status(Error::MissingCratePermission(
            UserPermission { bits: crate_action_requirement(action) },
        )) == status::FORBIDDEN,
{
    assert(!bits_contain(8, 1) && !bits_contain(2, 1) && !bits_contain(4, 1)) by (bit_vector);
}

/// The dependencies stored with a version.
#[derive(Clone, PartialEq, Eq, Debug)]
pub struct CrateDependencies(pub Vec<types::CrateDependency>);

/// A stored version of a crate.
#[derive(Clone, PartialEq, Eq, Debug)]
pub struct CrateVersion {
    pub id: i32,
    pub crate_id: i32,
    pub version: String,
    pub filesystem_object: String,
    pub size: i32,
    pub yanked: bool,
    pub checksum: String,
    pub dependencies: CrateDependencies,
    pub features: types::CrateFeatures,
    pub links: Option<String>,
    pub user_id: i32,
    /// Seconds since the Unix epoch.
    pub created_at: i64,
}

impl CrateVersion {
    /// The version as the index lists it, under the crate's name.
    pub fn into_cargo_format(self, crate_: &Crate) -> (r: types::CrateVersion)
        ensures
            r.name@ == crate_.name@,
            r.vers == self.version,
            r.deps == self.dependencies.0,
            r.features == self.features,
            r.links == self.links,
    {
        types::CrateVersion {
            name: crate_.name.clone(),
            vers: self.version,
            deps: self.dependencies.0,
            features: self.features,
            links: self.links,
        }
    }
}

impl CrateDependencies {
    /// The dependencies of a version as they are stored.
    pub fn from(o: Vec<types::CrateDependency>) -> (r: CrateDependencies)
        ensures
            r.0 == o,
    {
        CrateDependencies(o)
    }
}

/// The new values of a crate's row when a version is published.
pub struct CrateUpdate {
    pub id: i32,
    pub name: String,
    pub description: Option<String>,
    pub readme: Option<String>,
    pub repository: Option<String>,
    pub homepage: Option<String>,
    pub documentation: Option<String>,
}

/// The row of a version about to be published.
pub struct NewCrateVersion {
    pub crate_id: i32,
    pub filesystem_object: String,
    pub size: i32,
    pub checksum: String,
    pub version: String,
    pub dependencies: CrateDependencies,
    pub features: types::CrateFeatures,
    pub links: Option<String>,
    pub user_id: i32,
}

/// What publishing a version writes, in one transaction: the crate's row,
/// then the version's.
pub struct PublishVersionRows {
    pub crate_update: CrateUpdate,
    pub new_version: NewCrateVersion,
}

impl CrateWithPermissions {
    /// What publishing the version `given` of the crate writes, where the
    /// user `user_id` uploaded its file to `file_identifier`: refused
    /// without the `PUBLISH_VERSION` permission. The crate takes the name
    /// and metadata given; the version row records the file, its size and
    /// checksum, and what the version declares.
    pub fn publish_version(
        &self,
        user_id: i32,
        file_identifier: &FileReference,
        file_checksum: String,
        file_size: i32,
        given: types::CrateVersion,
        metadata: types::CrateVersionMetadata,
    ) -> (r: Result<PublishVersionRows, Error>)
        ensures
            !bits_contain(self.permissions.bits, PUBLISH_VERSION_BIT) ==> r == Err::<
                PublishVersionRows,
                Error,
            >(Error::MissingCratePermission(UserPermission { bits: PUBLISH_VERSION_BIT })),
            bits_contain(self.permissions.bits, PUBLISH_VERSION_BIT) ==> (r matches Ok(rows) && {
                &&& rows.crate_update.id == self.crate_.id
                &&& rows.crate_update.name == given.name
                &&& rows.crate_update.description == metadata.description
                &&& rows.crate_update.readme == metadata.readme
                &&& rows.crate_update.repository == metadata.repository
                &&& rows.crate_update.homepage == metadata.homepage
                &&& rows.crate_update.documentation == metadata.documentation
                &&& rows.new_version.crate_id == self.crate_.id
                &&& rows.new_version.filesystem_object@ == reference_text(*file_identifier)
                &&& rows.new_version.size == file_size
                &&& rows.new_version.checksum == file_checksum
                &&& rows.new_version.version == given.vers
                &&& rows.new_version.dependencies.0 == given.deps
                &&& rows.new_version.features == given.features
                &&& rows.new_version.links == given.links
                &&& rows.new_version.user_id == user_id
            }),
    {
        if !self.permissions.contains(UserPermission::publish_version()) {
            return Err(Error::MissingCratePermission(UserPermission::publish_version()));
        }
        let types::CrateVersion { name, vers, deps, features, links } = given;
        let types::CrateVersionMetadata { description, readme, repository, homepage, documentation } =
            metadata;
        Ok(PublishVersionRows {
            crate_update: CrateUpdate {
                id: self.crate_.id,
                name,
                description,
                readme,
                repository,
                homepage,
                documentation,
            },
            new_version: NewCrateVersion {
                crate_id: self.crate_.id,
                filesystem_object: file_identifier.to_string(),
                size: file_size,
                checksum: file_checksum,
                version: vers,
                dependencies: CrateDependencies(deps),
                features,
                links,
                user_id,
            },
        })
    }
}

/// What inserting the row of version `vers` leads to: a version already
/// there is a conflict naming it.
pub fn version_insert_outcome(outcome: InsertOutcome, vers: String) -> (r: Result<(), Error>)
    ensures
        r == match outcome {
            InsertOutcome::Inserted => Ok::<(), Error>(()),
            InsertOutcome::UniqueViolation => Err(Error::VersionConflict(vers)),
            InsertOutcome::Failed => Err(Error::Query),
        },
{
    match outcome {
        InsertOutcome::Inserted => Ok(()),
        InsertOutcome::UniqueViolation => Err(Error::VersionConflict(vers)),
        InsertOutcome::Failed => Err(Error::Query),
    }
}

impl PublishVersionRows {
    /// What publishing answers once the rows were written in one
    /// transaction, given what inserting the version row did: a version of
    /// the crate already there is a conflict naming the version published.
    /// The transaction is committed exactly when the answer is `Ok`, and
    /// rolled back otherwise, leaving the crate's row as it was.
    pub fn outcome(&self, version_insert: InsertOutcome) -> (r: Result<(), Error>)
        ensures
            version_insert == InsertOutcome::Inserted ==> r == Ok::<(), Error>(()),
            version_insert == InsertOutcome::UniqueViolation ==> (r matches Err(
                Error::VersionConflict(v),
            ) && v@ == self.new_version.version@),
            version_insert == InsertOutcome::Failed ==> r == Err::<(), Error>(Error::Query),
    {
        version_insert_outcome(version_insert, self.new_version.version.clone())
    }
}

} // verus!
