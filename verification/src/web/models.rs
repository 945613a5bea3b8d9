//! Looking a crate up for a request and checking the permissions the
//! request needs on it.
use vstd::prelude::*;

use crate::db::crates::Crate;
use crate::db::Error as DbError;
use crate::permissions::{bits_contain, names_of, UserPermission, VISIBLE_BIT};
use crate::status;

verus! {

/// Why a crate could not be had for a request.
#[derive(Clone, PartialEq, Eq, Debug)]
pub enum CrateFetchError {
    /// No crate has that name.
    NotFound,
    /// The user lacks this permission on the crate.
    MissingPermission(UserPermission),
    Database(DbError),
}

/// The status code answered: a missing crate, or the missing permission to
/// see it, is 404, so that what the user cannot see stays hidden; another
/// missing permission is 403; the database failing is 500.
pub open spec fn fetch_status(e: CrateFetchError) -> u16 {
    match e {
        CrateFetchError::NotFound => status::NOT_FOUND,
        CrateFetchError::MissingPermission(p) => if p.bits == VISIBLE_BIT {
            status::NOT_FOUND
        } else {
            status::FORBIDDEN
        },
        CrateFetchError::Database(_) => status::INTERNAL_SERVER_ERROR,
    }
}

/// The names of a set of permissions as their debug form writes them:
/// joined by ` | `, or `(empty)`.
pub open spec fn permission_list(bits: i32) -> Seq<char> {
    if names_of(bits).len() == 0 {
        "(empty)"@
    } else {
        crate::fs::join(names_of(bits), " | "@)
    }
}

/// The message answered for an error.
pub open spec fn fetch_message(e: CrateFetchError) -> Seq<char> {
    match e {
        CrateFetchError::NotFound => "The requested crate does not exist"@,
        CrateFetchError::MissingPermission(p) => if p.bits == VISIBLE_BIT {
            "The requested crate does not exist"@
        } else {
            "You don't have the "@ + permission_list(p.bits) + " permission for this crate"@
        },
        CrateFetchError::Database(_) => "An error occurred while fetching the crate."@,
    }
}

impl CrateFetchError {
    /// The status code answered for the error.
    pub fn status_code(&self) -> (r: u16)
        ensures
            r == fetch_status(*self),
    {
        match self {
            CrateFetchError::NotFound => status::NOT_FOUND,
            CrateFetchError::MissingPermission(p) => if p.bits == VISIBLE_BIT {
                status::NOT_FOUND
            } else {
                status::FORBIDDEN
            },
            CrateFetchError::Database(_) => status::INTERNAL_SERVER_ERROR,
        }
    }

    /// The message answered for the error.
    pub fn message(&self) -> (r: String)
        ensures
            r@ == fetch_message(*self),
    {
        match self {
            CrateFetchError::NotFound => String::from_str("The requested crate does not exist"),
            CrateFetchError::MissingPermission(p) => if p.bits == VISIBLE_BIT {
                String::from_str("The requested crate does not exist")
            } else {
                let mut r = String::from_str("You don't have the ");
                let list = permission_list_text(*p);
                r.append(list.as_str());
                r.append(" permission for this crate");
                r
            },
            CrateFetchError::Database(_) => String::from_str(
                "An error occurred while fetching the crate.",
            ),
        }
    }
}

/// The names of a set of permissions joined by ` | `, or `(empty)`.
fn permission_list_text(p: UserPermission) -> (r: String)
    ensures
        r@ == permission_list(p.bits),
{
    let names = p.to_names();
    if names.len() == 0 {
        return String::from_str("(empty)");
    }
    let mut r = String::new();
    let mut i: usize = 0;
    let ghost parts = names_of(p.bits);
    assert(parts.take(0) =~= Seq::<Seq<char>>::empty());
    while i < names.len()
        invariant
            names@.len() == parts.len(),
            forall|j: int| 0 <= j < parts.len() ==> #[trigger] names@[j]@ == parts[j],
            i <= names@.len(),
            r@ == crate::fs::join(parts.take(i as int), " | "@),
        decreases names@.len() - i,
    {
        assert(parts.take(i + 1).drop_last() =~= parts.take(i as int));
        if i > 0 {
            r.append(" | ");
        } else {
            assert(parts.take(1) =~= seq![parts[0]]);
        }
        r.append(names[i]);
        i = i + 1;
    }
    assert(parts.take(names@.len() as int) =~= parts);
    r
}

/// The first of `required` that `held` lacks, if any.
pub open spec fn first_missing(held: i32, required: Seq<UserPermission>) -> Option<UserPermission>
    decreases required.len(),
{
    if required.len() == 0 {
        None
    } else if !bits_contain(held, required[0].bits) {
        Some(required[0])
    } else {
        first_missing(held, required.drop_first())
    }
}

/// The crate a request names, provided the user holds each of `required` on
/// it: `NotFound` where it does not exist, else the first permission
/// missing.
pub fn get_crate_with_permissions(found: Option<Crate>, held: UserPermission, required: &Vec<UserPermission>) -> (r: Result<Crate, CrateFetchError>)
    ensures
        match found {
            None => r == Err::<Crate, CrateFetchError>(CrateFetchError::NotFound),
            Some(c) => match first_missing(held.bits, required@) {
                None => r == Ok::<Crate, CrateFetchError>(c),
                Some(p) => r == Err::<Crate, CrateFetchError>(CrateFetchError::MissingPermission(p)),
            },
        },
{
    let crate_ = match found {
        None => return Err(CrateFetchError::NotFound),
        Some(c) => c,
    };
    let mut i: usize = 0;
    assert(required@.skip(0) =~= required@);
    while i < required.len()
        invariant
            found == Some(crate_),
            i <= required@.len(),
            first_missing(held.bits, required@) == first_missing(held.bits, required@.skip(i as int)),
        decreases required@.len() - i,
    {
        if !held.contains(required[i]) {
            return Err(CrateFetchError::MissingPermission(required[i]));
        }
        assert(required@.skip(i as int).drop_first() =~= required@.skip(i + 1));
        i = i + 1;
    }
    Ok(crate_)
}

} // verus!
