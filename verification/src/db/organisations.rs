//! Organisations, the permissions a user holds on them, and what each
//! operation on an organisation requires.
use vstd::prelude::*;

use super::Error;
use crate::permissions::{bits_contain, UserPermission, MANAGE_USERS_BIT, VISIBLE_BIT};
use crate::uuid::SqlUuid;

verus! {

/// An organisation owning crates.
#[derive(Clone, PartialEq, Eq, Debug)]
pub struct Organisation {
    pub id: i32,
    pub uuid: SqlUuid,
    pub name: String,
    pub description: String,
    pub public: bool,
}

/// The operations on an organisation that need a permission.
#[derive(Clone, Copy, PartialEq, Eq, Structural, Debug)]
pub enum OrganisationAction {
    /// Listing its crates.
    Crates,
    /// Listing its members.
    Members,
    /// Changing a member's permissions.
    UpdatePermissions,
    /// Adding a member.
    InsertPermissions,
    /// Removing a member.
    DeleteMember,
}

/// The permission an operation on an organisation requires.
pub open spec fn organisation_action_requirement(action: OrganisationAction) -> i32 {
    match action {
        OrganisationAction::Crates | OrganisationAction::Members => VISIBLE_BIT,
        _ => MANAGE_USERS_BIT,
    }
}

/// The error refusing an operation on an organisation: listing refusals
/// name the organisation, member changes name the crate-level permission.
pub open spec fn organisation_refusal(action: OrganisationAction) -> Error {
    match action {
        OrganisationAction::Crates | OrganisationAction::Members => Error::MissingOrganisationPermission(
            UserPermission { bits: VISIBLE_BIT },
        ),
        _ => Error::MissingCratePermission(UserPermission { bits: MANAGE_USERS_BIT }),
    }
}

/// An organisation together with the permissions the requesting user holds
/// on it.
#[derive(Clone, PartialEq, Eq, Debug)]
pub struct OrganisationWithPermissions {
    organisation: Organisation,
    permissions: UserPermission,
}

impl OrganisationWithPermissions {
    /// The organisation.
    pub closed spec fn organisation_spec(&self) -> Organisation {
        self.organisation
    }

    /// The permissions the user holds on it.
    pub closed spec fn permissions_spec(&self) -> UserPermission {
        self.permissions
    }

    /// Decides the answer to a lookup by name from what the database found:
    /// the organisation with the user's permissions on it, or
    /// `MissingOrganisation`.
    pub fn find_by_name(found: Option<(UserPermission, Organisation)>) -> (r: Result<
        OrganisationWithPermissions,
        Error,
    >)
        ensures
            match found {
                None => r == Err::<OrganisationWithPermissions, Error>(Error::MissingOrganisation),
                Some((p, o)) => r matches Ok(x) && x.permissions_spec() == p
                    && x.organisation_spec() == o,
            },
    {
        match found {
            None => Err(Error::MissingOrganisation),
            Some((permissions, organisation)) => Ok(
                OrganisationWithPermissions { organisation, permissions },
            ),
        }
    }

    /// The permissions the user holds on the organisation.
    pub fn permissions(&self) -> (r: UserPermission)
        ensures
            r == self.permissions_spec(),
    {
        self.permissions
    }

    /// The organisation.
    pub fn organisation(&self) -> (r: &Organisation)
        ensures
            *r == self.organisation_spec(),
    {
        &self.organisation
    }

    /// Whether the user may perform `action` on the organisation.
    pub fn authorize(&self, action: OrganisationAction) -> (r: Result<(), Error>)
        ensures
            bits_contain(self.permissions_spec().bits, organisation_action_requirement(action))
                ==> r is Ok,
            !bits_contain(self.permissions_spec().bits, organisation_action_requirement(action))
                ==> r == Err::<(), Error>(organisation_refusal(action)),
    {
        match action {
            OrganisationAction::Crates | OrganisationAction::Members => {
                if self.permissions.contains(UserPermission::visible()) {
                    Ok(())
                } else {
                    Err(Error::MissingOrganisationPermission(UserPermission::visible()))
                }
            },
            _ => {
                if self.permissions.contains(UserPermission::manage_users()) {
                    Ok(())
                } else {
                    Err(Error::MissingCratePermission(UserPermission::manage_users()))
                }
            },
        }
    }
}

/// The permissions an organisation's creator receives: every permission.
pub fn creator_permissions() -> (r: UserPermission)
    ensures
        r.bits == crate::permissions::ALL_BITS,
{
    UserPermission::all()
}

} // verus!
