//! Publishing a crate version: the body cargo sends, the checks on the
//! crate it describes, and what is stored of it.
use vstd::prelude::*;

use crate::db::crates::CrateWithPermissions;
use crate::db::users::hex_text;
use crate::db::Error as DbError;
use crate::status;
use crate::types::{CrateDependency, CrateFeatures, CrateVersion, CrateVersionMetadata};
use sha2::Digest;

verus! {

/// The version cargo publishes.
pub struct MetadataCrateVersion {
    pub name: String,
    pub vers: String,
    pub deps: Vec<MetadataCrateDependency>,
    pub features: CrateFeatures,
    pub links: Option<String>,
}

/// A dependency as cargo publishes it: under the name it has in the
/// manifest where that differs from the package's.
pub struct MetadataCrateDependency {
    pub name: String,
    pub version_req: String,
    pub features: Vec<String>,
    pub optional: bool,
    pub default_features: bool,
    pub target: Option<String>,
    pub kind: String,
    pub registry: Option<String>,
    pub explicit_name_in_toml: Option<String>,
}

/// Everything cargo says about a published version.
pub struct Metadata {
    pub authors: Vec<String>,
    pub readme_file: Option<String>,
    pub keywords: Vec<String>,
    pub categories: Vec<String>,
    pub license: Option<String>,
    pub license_file: Option<String>,
    pub meta: CrateVersionMetadata,
    pub inner: MetadataCrateVersion,
}

/// The warnings answered for a published version.
pub struct PublishCrateResponseWarnings {
    pub invalid_categories: Vec<String>,
    pub invalid_badges: Vec<String>,
    pub other: Vec<String>,
}

/// The answer to a published version.
pub struct PublishCrateResponse {
    pub warnings: PublishCrateResponseWarnings,
}

impl Default for PublishCrateResponseWarnings {
    /// No warnings.
    fn default() -> (r: PublishCrateResponseWarnings)
        ensures
            r.invalid_categories@.len() == 0,
            r.invalid_badges@.len() == 0,
            r.other@.len() == 0,
    {
        PublishCrateResponseWarnings {
            invalid_categories: Vec::new(),
            invalid_badges: Vec::new(),
            other: Vec::new(),
        }
    }
}

impl Default for PublishCrateResponse {
    /// An answer without warnings.
    fn default() -> (r: PublishCrateResponse)
        ensures
            r.warnings.invalid_categories@.len() == 0,
            r.warnings.invalid_badges@.len() == 0,
            r.warnings.other@.len() == 0,
    {
        PublishCrateResponse { warnings: PublishCrateResponseWarnings::default() }
    }
}

/// Why a publish was refused.
#[derive(Clone, PartialEq, Eq, Debug)]
pub enum Error {
    Database(DbError),
    /// The metadata is not valid JSON of the expected shape.
    JsonParse,
    /// The body is not two length-prefixed parts.
    MetadataParse,
    /// The crate's name breaks the naming rules.
    InvalidCrateName,
    /// The crate file could not be stored.
    File(crate::fs::Error),
}

/// The status code answered for a refused publish: the database error's
/// own, 400 for what the body got wrong, 500 where storing failed.
pub open spec fn error_status(e: Error) -> u16 {
    match e {
        Error::Database(d) => crate::db::error_status(d),
        Error::JsonParse | Error::MetadataParse | Error::InvalidCrateName => status::BAD_REQUEST,
        Error::File(_) => status::INTERNAL_SERVER_ERROR,
    }
}

impl Error {
    /// The status code answered for the error.
    pub fn status_code(&self) -> (r: u16)
        ensures
            r == error_status(*self),
    {
        match self {
            Error::Database(d) => d.status_code(),
            Error::JsonParse | Error::MetadataParse | Error::InvalidCrateName => status::BAD_REQUEST,
            Error::File(_) => status::INTERNAL_SERVER_ERROR,
        }
    }
}

/// The number four bytes stand for, least significant first.
pub open spec fn le_u32(b: Seq<u8>) -> nat {
    (b[0] + 256 * b[1] + 65536 * b[2] + 16777216 * b[3]) as nat
}

/// The four bytes of `n`, least significant first.
pub open spec fn le_bytes(n: nat) -> Seq<u8> {
    seq![(n % 256) as u8, ((n / 256) % 256) as u8, ((n / 65536) % 256) as u8, ((n / 16777216) % 256) as u8]
}

/// The two parts of a publish body: a four-byte length, least significant
/// byte first, then that many bytes of metadata; again a length, then that
/// many bytes of the crate file. Given as what follows the two parts, then
/// the metadata and the crate file.
pub open spec fn parse_body(body: Seq<u8>) -> Option<(Seq<u8>, (Seq<u8>, Seq<u8>))> {
    if body.len() < 4 {
        None
    } else {
        let m = le_u32(body.take(4));
        let rest = body.skip(4);
        if rest.len() < m {
            None
        } else {
            let rest2 = rest.skip(m as int);
            if rest2.len() < 4 {
                None
            } else {
                let c = le_u32(rest2.take(4));
                let rest3 = rest2.skip(4);
                if rest3.len() < c {
                    None
                } else {
                    Some((rest3.skip(c as int), (rest.take(m as int), rest3.take(c as int))))
                }
            }
        }
    }
}

/// The body cargo sends for `metadata` and `crate_file`.
pub open spec fn publish_body(metadata: Seq<u8>, crate_file: Seq<u8>) -> Seq<u8> {
    le_bytes(metadata.len()) + metadata + le_bytes(crate_file.len()) + crate_file
}

/// Reads four bytes as a number, least significant first.
fn read_u32(body: &[u8], at: usize) -> (r: u32)
    requires
        at + 4 <= body@.len(),
    ensures
        r == le_u32(body@.subrange(at as int, at + 4)),
{
    body[at] as u32 + (body[at + 1] as u32) * 256 + (body[at + 2] as u32) * 65536 + (body[at
        + 3] as u32) * 16777216
}

/// Splits a publish body into what follows its two parts, its metadata and
/// its crate file, or `None` where it is cut short.
pub fn parse(body: &[u8]) -> (r: Option<(Vec<u8>, (Vec<u8>, Vec<u8>))>)
    ensures
        match parse_body(body@) {
            Some((rest, (m, c))) => r matches Some((rr, (rm, rc))) && rr@ == rest && rm@ == m
                && rc@ == c,
            None => r is None,
        },
{
    let ghost b = body@;
    if body.len() < 4 {
        return None;
    }
    let m = read_u32(body, 0) as usize;
    assert(b.subrange(0, 4) =~= b.take(4));
    if body.len() - 4 < m {
        return None;
    }
    let meta_end = 4 + m;
    if body.len() - meta_end < 4 {
        assert(b.skip(4).skip(m as int) =~= b.skip(meta_end as int));
        return None;
    }
    let c = read_u32(body, meta_end) as usize;
    let crate_start = meta_end + 4;
    assert(b.skip(4).skip(m as int).take(4) =~= b.subrange(meta_end as int, crate_start as int));
    assert(b.skip(4).skip(m as int).skip(4) =~= b.skip(crate_start as int));
    if body.len() - crate_start < c {
        return None;
    }
    let metadata = vstd::slice::slice_to_vec(vstd::slice::slice_subrange(body, 4, meta_end));
    let crate_file = vstd::slice::slice_to_vec(
        vstd::slice::slice_subrange(body, crate_start, crate_start + c),
    );
    let rest = vstd::slice::slice_to_vec(
        vstd::slice::slice_subrange(body, crate_start + c, body.len()),
    );
    assert(metadata@ =~= b.skip(4).take(m as int));
    assert(crate_file@ =~= b.skip(crate_start as int).take(c as int));
    assert(rest@ =~= b.skip(crate_start as int).skip(c as int));
    Some((rest, (metadata, crate_file)))
}

proof fn lemma_le_round_trip(n: nat)
    requires
        n < 4294967296,
    ensures
        le_u32(le_bytes(n)) == n,
        le_bytes(n).len() == 4,
{
    let b = le_bytes(n);
    assert(b[0] == n % 256);
    assert(b[1] == (n / 256) % 256);
    assert(b[2] == (n / 65536) % 256);
    assert(b[3] == (n / 16777216) % 256);
    assert((n % 256) + 256 * ((n / 256) % 256) + 65536 * ((n / 65536) % 256) + 16777216 * ((n
        / 16777216) % 256) == n) by (nonlinear_arith)
        requires
            n < 4294967296,
    ;
}

/// A body made of two length-prefixed parts reads back as those parts,
/// and what follows them as the rest.
pub proof fn lemma_publish_body_round_trip(metadata: Seq<u8>, crate_file: Seq<u8>, rest: Seq<u8>)
    requires
        metadata.len() < 4294967296,
        crate_file.len() < 4294967296,
    ensures
        parse_body(publish_body(metadata, crate_file) + rest) == Some((rest, (metadata, crate_file))),
{
    lemma_le_round_trip(metadata.len());
    lemma_le_round_trip(crate_file.len());
    let body = publish_body(metadata, crate_file) + rest;
    let m = metadata.len();
    assert(body.take(4) =~= le_bytes(m));
    let after = body.skip(4);
    assert(after =~= metadata + le_bytes(crate_file.len()) + crate_file + rest);
    assert(after.take(m as int) =~= metadata);
    let rest2 = after.skip(m as int);
    assert(rest2 =~= le_bytes(crate_file.len()) + crate_file + rest);
    assert(rest2.take(4) =~= le_bytes(crate_file.len()));
    let rest3 = rest2.skip(4);
    assert(rest3 =~= crate_file + rest);
    assert(rest3.take(crate_file.len() as int) =~= crate_file);
    assert(rest3.skip(crate_file.len() as int) =~= rest);
}

/// The most characters a crate name may have.
pub const MAX_NAME_LENGTH: usize = 64;

/// Whether `c` is an ASCII letter.
pub open spec fn is_ascii_alphabetic(c: char) -> bool {
    ('a' <= c <= 'z') || ('A' <= c <= 'Z')
}

/// Whether `c` may stand in a crate name.
pub open spec fn is_name_char(c: char) -> bool {
    is_ascii_alphabetic(c) || ('0' <= c <= '9') || c == '-' || c == '_'
}

/// Whether a crate may be published under `name`: it starts with an ASCII
/// letter, holds only ASCII letters, digits, `-` and `_`, and has at most
/// 64 characters.
pub open spec fn valid_crate_name(name: Seq<char>) -> bool {
    &&& name.len() > 0 && is_ascii_alphabetic(name[0])
    &&& forall|i: int| 0 <= i < name.len() ==> #[trigger] is_name_char(name[i])
    &&& name.len() <= MAX_NAME_LENGTH
}

/// The crate name rule in plain terms: a name is accepted exactly when it
/// has between one and 64 characters, starts with an ASCII letter of either
/// case, and holds only ASCII letters of either case, ASCII digits, `-` and
/// `_`.
pub proof fn lemma_valid_crate_name_chars(name: Seq<char>)
    ensures
        valid_crate_name(name) <==> {
            &&& 0 < name.len() <= 64
            &&& ('a' <= name[0] <= 'z' || 'A' <= name[0] <= 'Z')
            &&& forall|i: int|
                0 <= i < name.len() ==> ('a' <= #[trigger] name[i] <= 'z' || 'A' <= name[i] <= 'Z'
                    || '0' <= name[i] <= '9' || name[i] == '-' || name[i] == '_')
        },
{
    let plain = forall|i: int|
        0 <= i < name.len() ==> ('a' <= #[trigger] name[i] <= 'z' || 'A' <= name[i] <= 'Z' || '0'
            <= name[i] <= '9' || name[i] == '-' || name[i] == '_');
    if plain {
        assert forall|i: int| 0 <= i < name.len() implies #[trigger] is_name_char(name[i]) by {
            assert('a' <= name[i] <= 'z' || 'A' <= name[i] <= 'Z' || '0' <= name[i] <= '9'
                || name[i] == '-' || name[i] == '_');
        }
    }
    if forall|i: int| 0 <= i < name.len() ==> #[trigger] is_name_char(name[i]) {
        assert forall|i: int| 0 <= i < name.len() implies ('a' <= #[trigger] name[i] <= 'z' || 'A'
            <= name[i] <= 'Z' || '0' <= name[i] <= '9' || name[i] == '-' || name[i] == '_') by {
            assert(is_name_char(name[i]));
        }
    }
}

/// Whether a crate may be published under `name`.
pub fn validate_crate_name(name: &str) -> (r: bool)
    ensures
        r == valid_crate_name(name@),
{
    let chars = crate::text::chars_of(name);
    let starts_with_alphabetic = chars.len() > 0 && (('a' <= chars[0] && chars[0] <= 'z') || (
    'A' <= chars[0] && chars[0] <= 'Z'));
    let mut is_alphanumeric = true;
    let mut i: usize = 0;
    while i < chars.len()
        invariant
            chars@ == name@,
            i <= chars@.len(),
            is_alphanumeric == forall|j: int| 0 <= j < i ==> #[trigger] is_name_char(chars@[j]),
        decreases chars@.len() - i,
    {
        let c = chars[i];
        let ok = ('a' <= c && c <= 'z') || ('A' <= c && c <= 'Z') || ('0' <= c && c <= '9') || c
            == '-' || c == '_';
        proof {
            if !ok {
                assert(!is_name_char(chars@[i as int]));
            }
        }
        is_alphanumeric = is_alphanumeric && ok;
        i = i + 1;
    }
    let is_under_max_length = chars.len() <= MAX_NAME_LENGTH;
    starts_with_alphabetic && is_alphanumeric && is_under_max_length
}

/// The SHA-256 digest of `bytes`, as sha2's `Sha256::digest` computes it.
pub uninterp spec fn sha256_digest(bytes: Seq<u8>) -> Seq<u8>;

/// Hashes bytes with sha2's `Sha256::digest`: 32 bytes.
#[verifier::external_body]
fn sha256(bytes: &[u8]) -> (r: Vec<u8>)
    ensures
        r@ == sha256_digest(bytes@),
        r@.len() == 32,
{
    sha2::Sha256::digest(bytes).to_vec()
}

/// The checksum stored for a crate file: the lower-case hexadecimal of its
/// SHA-256 digest.
pub fn checksum(crate_file: &[u8]) -> (r: String)
    ensures
        r@ == hex_text(sha256_digest(crate_file@)),
{
    let digest = sha256(crate_file);
    crate::db::users::hex_encode(digest.as_slice())
}

impl From<MetadataCrateDependency> for CrateDependency {
    /// The dependency as the index lists it: under the package's name, with
    /// the manifest's name as its name where the two differ.
    fn from(us: MetadataCrateDependency) -> (r: CrateDependency) {
        let (name, package) = match us.explicit_name_in_toml {
            Some(explicit) => (explicit, Some(us.name)),
            None => (us.name, None),
        };
        CrateDependency {
            name,
            version_req: us.version_req,
            features: us.features,
            optional: us.optional,
            default_features: us.default_features,
            target: us.target,
            kind: us.kind,
            registry: us.registry,
            package,
        }
    }
}

impl vstd::std_specs::convert::FromSpecImpl<MetadataCrateDependency> for CrateDependency {
    open spec fn obeys_from_spec() -> bool {
        true
    }

    open spec fn from_spec(us: MetadataCrateDependency) -> CrateDependency {
        dependency_of(us)
    }
}

/// The dependency as the index lists it: under the package's name, with
/// the manifest's name as its name where the two differ.
pub open spec fn dependency_of(us: MetadataCrateDependency) -> CrateDependency {
    CrateDependency {
        name: match us.explicit_name_in_toml {
            Some(explicit) => explicit,
            None => us.name,
        },
        version_req: us.version_req,
        features: us.features,
        optional: us.optional,
        default_features: us.default_features,
        target: us.target,
        kind: us.kind,
        registry: us.registry,
        package: match us.explicit_name_in_toml {
            Some(_) => Some(us.name),
            None => None,
        },
    }
}

impl MetadataCrateVersion {
    /// The version as the index lists it, each dependency converted.
    pub fn into_crate_version(self) -> (r: CrateVersion)
        ensures
            r.name == self.name,
            r.vers == self.vers,
            r.features == self.features,
            r.links == self.links,
            r.deps@.len() == self.deps@.len(),
            forall|i: int|
                0 <= i < self.deps@.len() ==> r.deps@[i] == dependency_of(#[trigger] self.deps@[i]),
    {
        let MetadataCrateVersion { name, vers, deps, features, links } = self;
        let ghost given = deps@;
        let mut out: Vec<CrateDependency> = Vec::new();
        for d in it: deps
            invariant
                it.seq() == given,
                out@.len() == it.index(),
                forall|j: int|
                    0 <= j < it.index() ==> out@[j] == dependency_of(#[trigger] given[j]),
        {
            out.push(CrateDependency::from(d));
        }
        CrateVersion { name, vers, deps: out, features, links }
    }
}

/// Where a version goes once its crate was looked up: into the crate
/// found, or into a new crate where none exists yet.
pub enum PublishTarget {
    Existing(CrateWithPermissions),
    Create,
}

/// Where a version goes, given what looking its crate up answered: a
/// missing crate is created (`Crate::create` checks the permission to),
/// any other error refuses the publish.
pub fn publish_target(found: Result<CrateWithPermissions, DbError>) -> (r: Result<PublishTarget, Error>)
    ensures
        match found {
            Ok(c) => r matches Ok(PublishTarget::Existing(x)) && x == c,
            Err(DbError::MissingCrate) => r matches Ok(PublishTarget::Create),
            Err(e) => r == Err::<PublishTarget, Error>(Error::Database(e)),
        },
{
    match found {
        Ok(c) => Ok(PublishTarget::Existing(c)),
        Err(DbError::MissingCrate) => Ok(PublishTarget::Create),
        Err(e) => Err(Error::Database(e)),
    }
}

/// Refuses a version whose crate name breaks the naming rules.
pub fn check_crate_name(name: &str) -> (r: Result<(), Error>)
    ensures
        valid_crate_name(name@) ==> r == Ok::<(), Error>(()),
        !valid_crate_name(name@) ==> r == Err::<(), Error>(Error::InvalidCrateName),
{
    if validate_crate_name(name) {
        Ok(())
    } else {
        Err(Error::InvalidCrateName)
    }
}

/// The size stored for a version: the length of its metadata, which must
/// fit in an `i32`.
pub fn metadata_size(len: usize) -> (r: i32)
    requires
        len <= i32::MAX,
    ensures
        r == len,
{
    len as i32
}

} // verus!
