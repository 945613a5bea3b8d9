//! The SSH host keys of the server, kept in the database so that every host
//! serving Git presents the same key.
use vstd::prelude::*;

use super::InsertOutcome;

verus! {

/// The length in bytes of an ed25519 secret key (seed and public half).
pub const ED25519_KEY_LENGTH: usize = 64;

/// A host key as stored: its type's name and the raw private key bytes.
#[derive(Clone, PartialEq, Eq, Debug, Default)]
pub struct ServerPrivateKey {
    pub id: i32,
    pub ssh_key_type: String,
    pub ssh_private_key: Vec<u8>,
}

/// An ed25519 secret key.
#[derive(Clone, PartialEq, Eq, Debug)]
pub struct Ed25519SecretKey {
    pub key: Vec<u8>,
}

/// A host key pair of a type the server can use.
#[derive(Clone, PartialEq, Eq, Debug)]
pub enum KeyPair {
    Ed25519(Ed25519SecretKey),
}

/// Why a host key could not be made, stored or read back.
#[derive(Clone, PartialEq, Eq, Debug)]
pub enum PrivateKeyError {
    /// A key of the named type could not be generated.
    KeyGenerate(&'static str),
    /// The stored key of the named type has the wrong shape.
    InvalidPrivateKey(String),
    /// The stored key is of a type the server cannot handle.
    UnknownPrivateKeyType(String),
    /// The database connection pool could not give a connection.
    Connection,
    /// The task running the query failed.
    TaskJoin,
    /// The query failed.
    Query,
}

impl ServerPrivateKey {
    /// Turns the stored key into a key pair: an `ed25519` key of exactly 64
    /// bytes becomes an ed25519 key pair holding those bytes; an `ed25519`
    /// key of another length gives `InvalidPrivateKey`, and any other type
    /// `UnknownPrivateKeyType`, each naming the stored type.
    pub fn into_private_key(self) -> (r: Result<KeyPair, PrivateKeyError>)
        ensures
            self.ssh_key_type@ == "ed25519"@ && self.ssh_private_key@.len() == ED25519_KEY_LENGTH
                ==> (r matches Ok(KeyPair::Ed25519(k)) && k.key@ == self.ssh_private_key@),
            self.ssh_key_type@ == "ed25519"@ && self.ssh_private_key@.len() != ED25519_KEY_LENGTH
                ==> (r matches Err(PrivateKeyError::InvalidPrivateKey(t)) && t@ == self.ssh_key_type@),
            self.ssh_key_type@ != "ed25519"@ ==> (r matches Err(
                PrivateKeyError::UnknownPrivateKeyType(t),
            ) && t@ == self.ssh_key_type@),
    {
        if crate::text::str_eq(self.ssh_key_type.as_str(), "ed25519") {
            if self.ssh_private_key.len() != ED25519_KEY_LENGTH {
                return Err(PrivateKeyError::InvalidPrivateKey(self.ssh_key_type));
            }
            Ok(KeyPair::Ed25519(Ed25519SecretKey { key: self.ssh_private_key }))
        } else {
            Err(PrivateKeyError::UnknownPrivateKeyType(self.ssh_key_type))
        }
    }
}

/// The private key bytes of a key pair.
pub fn private_key_bytes(key: &KeyPair) -> (r: Result<Vec<u8>, PrivateKeyError>)
    ensures
        match key {
            KeyPair::Ed25519(k) => r matches Ok(b) && b@ == k.key@,
        },
{
    match key {
        KeyPair::Ed25519(k) => Ok(k.key.clone()),
    }
}

/// Whether creating the host keys succeeded, given what the insert did: a
/// key already stored is no failure.
pub open spec fn insert_result(outcome: InsertOutcome) -> Result<(), PrivateKeyError> {
    match outcome {
        InsertOutcome::Inserted | InsertOutcome::UniqueViolation => Ok(()),
        InsertOutcome::Failed => Err(PrivateKeyError::Query),
    }
}

impl PrivateKeyError {
    /// Whether creating the host keys succeeded, given what the insert
    /// did: a key already stored is no failure.
    pub fn from_insert(outcome: InsertOutcome) -> (r: Result<(), PrivateKeyError>)
        ensures
            r == insert_result(outcome),
    {
        match outcome {
            InsertOutcome::Inserted | InsertOutcome::UniqueViolation => Ok(()),
            InsertOutcome::Failed => Err(PrivateKeyError::Query),
        }
    }
}

/// Whether the stored rows, `(key type, private key)`, hold a key of type
/// `key_type`.
pub open spec fn holds_key_type(table: Seq<(Seq<char>, Seq<u8>)>, key_type: Seq<char>) -> bool {
    exists|i: int| 0 <= i < table.len() && #[trigger] table[i].0 == key_type
}

/// How the table of host keys, whose key type is unique, answers an insert
/// of `row`: a query that fails changes nothing; a row of a type already
/// stored is refused as a unique violation; any other row is added.
pub open spec fn insert_unique(
    table: Seq<(Seq<char>, Seq<u8>)>,
    row: (Seq<char>, Seq<u8>),
    query_fails: bool,
) -> (Seq<(Seq<char>, Seq<u8>)>, InsertOutcome) {
    if query_fails {
        (table, InsertOutcome::Failed)
    } else if holds_key_type(table, row.0) {
        (table, InsertOutcome::UniqueViolation)
    } else {
        (table.push(row), InsertOutcome::Inserted)
    }
}

/// Creating the host keys, against a table whose key type is unique: where
/// it succeeds the table holds an ed25519 key; a key already stored keeps
/// its bytes and no second ed25519 row is added, so a second creation
/// changes nothing.
pub proof fn lemma_create_if_not_exists(
    table: Seq<(Seq<char>, Seq<u8>)>,
    generated: Seq<u8>,
    query_fails: bool,
    generated_again: Seq<u8>,
    fails_again: bool,
)
    ensures
        ({
            let (after, outcome) = insert_unique(table, ("ed25519"@, generated), query_fails);
            &&& insert_result(outcome) is Ok ==> holds_key_type(after, "ed25519"@)
            &&& holds_key_type(table, "ed25519"@) ==> after == table
            &&& insert_result(outcome) is Ok ==> insert_unique(
                after,
                ("ed25519"@, generated_again),
                fails_again,
            ).0 == after
        }),
{
    let row = ("ed25519"@, generated);
    let (after, outcome) = insert_unique(table, row, query_fails);
    if !query_fails && !holds_key_type(table, "ed25519"@) {
        assert(after[table.len() as int].0 == "ed25519"@);
    }
}

} // verus!
