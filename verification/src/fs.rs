//! Where crate files are stored: on the local disk or in an S3 bucket, and
//! the references to stored files kept in the database.
use vstd::prelude::*;
use vstd::utf8::encode_utf8;

use crate::text::{chars_of, push_char, str_eq, string_of};
use crate::uuid::{
    uuid_parsed, uuid_text, Uuid,
};

verus! {

/// Why a file system could not be set up or used.
#[derive(Clone, Copy, PartialEq, Eq, Structural, Debug)]
pub enum Error {
    /// The file system URI is not a URL.
    UriParse,
    /// The URI's scheme is neither `s3` nor `file`, or a reference names an
    /// unknown kind.
    UnknownFileSystemKind,
    /// Storing an object in S3 failed.
    S3Put,
    /// Fetching an object from S3 failed.
    S3Get,
    /// Reading or writing a local file failed.
    Io,
    /// A reference's identifier is not a UUID.
    UuidParse,
    /// The URI has no path.
    MissingPath,
    /// The URI has no host.
    MissingHost,
    /// The URI's path names no bucket.
    MissingBucket,
    /// The presigning configuration was refused.
    AwsPresigningConfig,
}

/// The kinds of file system a file can be stored on.
#[derive(Clone, Copy, PartialEq, Eq, Structural, Debug)]
pub enum FileSystemKind {
    Local,
    S3,
}

/// The text of a file system kind.
pub open spec fn kind_text(kind: FileSystemKind) -> Seq<char> {
    match kind {
        FileSystemKind::Local => "local"@,
        FileSystemKind::S3 => "s3"@,
    }
}

/// The kind written as `s`, if any.
pub open spec fn kind_of_text(s: Seq<char>) -> Option<FileSystemKind> {
    if s == "local"@ {
        Some(FileSystemKind::Local)
    } else if s == "s3"@ {
        Some(FileSystemKind::S3)
    } else {
        None
    }
}

impl FileSystemKind {
    /// The kind's text: `local` or `s3`.
    pub fn to_string(&self) -> (r: String)
        ensures
            r@ == kind_text(*self),
    {
        match self {
            FileSystemKind::Local => "local".to_owned(),
            FileSystemKind::S3 => "s3".to_owned(),
        }
    }

    /// Reads a kind from its text.
    pub fn from_str(s: &str) -> (r: Result<FileSystemKind, Error>)
        ensures
            r == (match kind_of_text(s@) {
                Some(k) => Ok(k),
                None => Err(Error::UnknownFileSystemKind),
            }),
    {
        if str_eq(s, "local") {
            Ok(FileSystemKind::Local)
        } else if str_eq(s, "s3") {
            Ok(FileSystemKind::S3)
        } else {
            Err(Error::UnknownFileSystemKind)
        }
    }
}

/// The position of the first `c` in `s`, if any.
pub open spec fn first_index_of(s: Seq<char>, c: char) -> Option<int>
    decreases s.len(),
{
    if s.len() == 0 {
        None
    } else if s[0] == c {
        Some(0)
    } else {
        match first_index_of(s.drop_first(), c) {
            Some(i) => Some(i + 1),
            None => None,
        }
    }
}

/// `s` split at its first `:`, as `splitn(2, ':')` splits it; with no `:`
/// the second part is empty.
pub open spec fn split_first_colon(s: Seq<char>) -> (Seq<char>, Seq<char>) {
    match first_index_of(s, ':') {
        Some(i) => (s.take(i), s.skip(i + 1)),
        None => (s, seq![]),
    }
}

/// A stored file: the kind of file system holding it and its identifier.
#[derive(Clone, Copy, PartialEq, Eq, Structural, Debug)]
pub struct FileReference {
    pub file_system: FileSystemKind,
    pub reference: Uuid,
}

/// The text of a reference: `kind:uuid`.
pub open spec fn reference_text(r: FileReference) -> Seq<char> {
    kind_text(r.file_system) + seq![':'] + uuid_text(r.reference.0)
}

/// What reading `s` as a reference gives.
pub open spec fn parse_reference(s: Seq<char>) -> Result<FileReference, Error> {
    let (kind, id) = split_first_colon(s);
    match kind_of_text(kind) {
        None => Err(Error::UnknownFileSystemKind),
        Some(k) => match uuid_parsed(id) {
            None => Err(Error::UuidParse),
            Some(v) => Ok(FileReference { file_system: k, reference: Uuid(v) }),
        },
    }
}

/// Splits `s` at its first `:`.
pub fn split_at_first_colon(s: &str) -> (r: (String, String))
    ensures
        (r.0@, r.1@) == split_first_colon(s@),
{
    let chars = chars_of(s);
    let mut i: usize = 0;
    while i < chars.len()
        invariant
            chars@ == s@,
            i <= chars@.len(),
            forall|j: int| 0 <= j < i ==> chars@[j] != ':',
        decreases chars@.len() - i,
    {
        if chars[i] == ':' {
            proof {
                lemma_first_index_of(s@, ':', i as int);
            }
            return (string_of(&chars, 0, i), string_of(&chars, i + 1, chars.len()));
        }
        i = i + 1;
    }
    proof {
        lemma_no_index_of(s@, ':');
    }
    assert(chars@.subrange(0, chars@.len() as int) =~= s@);
    (string_of(&chars, 0, chars.len()), String::new())
}

/// The first `c` in `s` is at `i` when `s[i]` is `c` and nothing before is.
proof fn lemma_first_index_of(s: Seq<char>, c: char, i: int)
    requires
        0 <= i < s.len(),
        s[i] == c,
        forall|j: int| 0 <= j < i ==> s[j] != c,
    ensures
        first_index_of(s, c) == Some(i),
    decreases i,
{
    if i > 0 {
        lemma_first_index_of(s.drop_first(), c, i - 1);
    }
}

/// Without `c` in `s` there is no first `c`.
proof fn lemma_no_index_of(s: Seq<char>, c: char)
    requires
        forall|j: int| 0 <= j < s.len() ==> s[j] != c,
    ensures
        first_index_of(s, c) is None,
    decreases s.len(),
{
    if s.len() > 0 {
        lemma_no_index_of(s.drop_first(), c);
    }
}

impl FileReference {
    /// A reference to a new file on a file system of `kind`, with a random
    /// identifier.
    pub fn create(kind: FileSystemKind) -> (r: FileReference)
        ensures
            r.file_system == kind,
    {
        FileReference { file_system: kind, reference: Uuid::new_v4() }
    }

    /// The reference's text: the kind, a colon, and the hyphenated identifier.
    pub fn to_string(&self) -> (r: String)
        ensures
            r@ == reference_text(*self),
    {
        let mut r = self.file_system.to_string();
        push_char(&mut r, ':');
        let id = self.reference.to_string();
        let ghost before = r@;
        r.append(id.as_str());
        assert(r@ =~= reference_text(*self));
        r
    }

    /// Reads a reference from its text.
    pub fn from_str(s: &str) -> (r: Result<FileReference, Error>)
        ensures
            r == parse_reference(s@),
            forall|x: FileReference| s@ == reference_text(x) ==> r == Ok::<FileReference, Error>(x),
    {
        let (kind, id) = split_at_first_colon(s);
        let file_system = FileSystemKind::from_str(kind.as_str());
        let parsed = Uuid::parse_str(id.as_str());
        proof {
            assert forall|x: FileReference| s@ == reference_text(x) implies file_system == Ok::<
                FileSystemKind,
                Error,
            >(x.file_system) && parsed == Some(x.reference) by {
                lemma_reference_text_split(x);
            }
        }
        let file_system = file_system?;
        match parsed {
            None => Err(Error::UuidParse),
            Some(reference) => Ok(FileReference { file_system, reference }),
        }
    }
}

/// A reference's text splits at its first colon into the kind's text and
/// the identifier's text, and the kind's text reads back as the kind.
pub proof fn lemma_reference_text_split(r: FileReference)
    ensures
        split_first_colon(reference_text(r)) == (kind_text(r.file_system), uuid_text(
            r.reference.0,
        )),
        kind_of_text(kind_text(r.file_system)) == Some(r.file_system),
{
    reveal_strlit("local");
    reveal_strlit("s3");
    let k = kind_text(r.file_system);
    let t = reference_text(r);
    let u = uuid_text(r.reference.0);
    assert(forall|j: int| 0 <= j < k.len() ==> k[j] != ':');
    lemma_first_index_of(t, ':', k.len() as int);
    assert(t.take(k.len() as int) =~= k);
    assert(t.skip(k.len() as int + 1) =~= u);
}

/// A parsed URL: the parts that choosing a file system reads, and the bytes
/// of the local path that `Url::to_file_path` gives for it, if any.
pub struct ParsedUrl {
    pub scheme: String,
    pub host: Option<String>,
    pub path_segments: Option<Vec<String>>,
    pub file_path: Option<Vec<u8>>,
}

/// The scheme, host and path segments of a parsed URL as character
/// sequences.
pub struct UrlParts {
    pub scheme: Seq<char>,
    pub host: Option<Seq<char>>,
    pub path_segments: Option<Seq<Seq<char>>>,
}

impl ParsedUrl {
    /// The scheme, host and path segments as character sequences.
    pub open spec fn parts(&self) -> UrlParts {
        UrlParts {
            scheme: self.scheme@,
            host: match self.host {
                Some(h) => Some(h@),
                None => None,
            },
            path_segments: match self.path_segments {
                Some(p) => Some(p@.map_values(|x: String| x@)),
                None => None,
            },
        }
    }

    /// The bytes of the local path.
    pub open spec fn local_path(&self) -> Option<Seq<u8>> {
        match self.file_path {
            Some(f) => Some(f@),
            None => None,
        }
    }
}

/// What parsing `s` with `url::Url::parse` gives: the scheme, the host and
/// the path segments, or nothing for text that is no URL.
pub uninterp spec fn url_parts(s: Seq<char>) -> Option<UrlParts>;

/// Parses a URL with `url::Url::parse` and reads its scheme, its host (as
/// `Host`'s `Display` writes it), its path segments and, through
/// `Url::to_file_path`, the bytes of the local path it names. The scheme,
/// host and segments depend on the text alone; the
/// URL standard that decides them is left to the name `url_parts`. The local
/// path depends on the operating system as well (a `file:` URL with a host
/// names a path on Windows only), so all that is said of it is that there is
/// none without path segments, as `to_file_path` returns an error then on
/// every system.
#[verifier::external_body]
fn parse_url(s: &str) -> (r: Option<ParsedUrl>)
    ensures
        match (r, url_parts(s@)) {
            (Some(p), Some(v)) => p.parts() == v && (p.file_path is Some ==> p.path_segments is Some),
            (None, None) => true,
            _ => false,
        },
{
    match url::Url::parse(s) {
        Err(_) => None,
        Ok(u) => Some(ParsedUrl {
            scheme: u.scheme().to_string(),
            host: u.host().map(|h| h.to_string()),
            path_segments: u.path_segments().map(|p| p.map(String::from).collect()),
            file_path: u.to_file_path().ok().map(|p| p.into_os_string().into_encoded_bytes()),
        }),
    }
}

/// Files stored under a directory of the local disk, named by the bytes of
/// its path.
#[derive(Clone, PartialEq, Eq, Debug)]
pub struct Local {
    pub path: Vec<u8>,
}

/// Files stored in a bucket of an S3 service, under a common prefix.
#[derive(Clone, PartialEq, Eq, Debug)]
pub struct S3 {
    pub host: String,
    pub bucket: String,
    pub path: String,
}

/// Where crate files are stored.
#[derive(Clone, PartialEq, Eq, Debug)]
pub enum FileSystem {
    S3(S3),
    Local(Local),
}

/// `parts` joined by `sep`.
pub open spec fn join(parts: Seq<Seq<char>>, sep: Seq<char>) -> Seq<char>
    decreases parts.len(),
{
    if parts.len() == 0 {
        seq![]
    } else if parts.len() == 1 {
        parts[0]
    } else {
        join(parts.drop_last(), sep) + sep + parts.last()
    }
}

/// A file system as values: an S3 host, bucket and prefix, or the bytes of
/// a local directory's path.
pub enum FileSystemView {
    S3 { host: Seq<char>, bucket: Seq<char>, path: Seq<char> },
    Local { path: Seq<u8> },
}

/// The file system that a parsed URI describes. `file_path` is the local
/// path that the URI names, if any.
pub open spec fn file_system_of_parts(p: UrlParts, file_path: Option<Seq<u8>>) -> Result<
    FileSystemView,
    Error,
> {
    if p.scheme == "s3"@ {
        match p.path_segments {
            None => Err(Error::MissingPath),
            Some(segments) => match p.host {
                None => Err(Error::MissingHost),
                Some(host) => if segments.len() == 0 {
                    Err(Error::MissingBucket)
                } else {
                    Ok(
                        FileSystemView::S3 {
                            host,
                            bucket: segments[0],
                            path: join(segments.drop_first(), "/"@),
                        },
                    )
                },
            },
        }
    } else if p.scheme == "file"@ {
        match file_path {
            None => Err(Error::MissingPath),
            Some(path) => Ok(FileSystemView::Local { path }),
        }
    } else {
        Err(Error::UnknownFileSystemKind)
    }
}

/// `r` is the file system `d` describes, or the error `d` names.
pub open spec fn described_by(r: Result<FileSystem, Error>, d: Result<FileSystemView, Error>) -> bool {
    match d {
        Ok(d) => r matches Ok(fs) && fs.view() == d,
        Err(e) => r == Err::<FileSystem, Error>(e),
    }
}

impl View for FileSystem {
    type V = FileSystemView;

    open spec fn view(&self) -> FileSystemView {
        match self {
            FileSystem::S3(s) => FileSystemView::S3 { host: s.host@, bucket: s.bucket@, path: s.path@ },
            FileSystem::Local(l) => FileSystemView::Local { path: l.path@ },
        }
    }
}

impl FileSystem {
    /// Reads a file system from a URI: `s3://host/bucket/path...` or
    /// `file:///path`. For a `file:` URI the local path is the one that
    /// `Url::to_file_path` gives on this system; without one the URI is
    /// refused as having no path.
    pub fn from_str(s: &str) -> (r: Result<FileSystem, Error>)
        ensures
            match url_parts(s@) {
                None => r == Err::<FileSystem, Error>(Error::UriParse),
                Some(p) => if p.scheme == "file"@ {
                    match r {
                        Ok(fs) => fs is Local && p.path_segments is Some,
                        Err(e) => e == Error::MissingPath,
                    }
                } else {
                    described_by(r, file_system_of_parts(p, None))
                },
            },
    {
        match parse_url(s) {
            None => Err(Error::UriParse),
            Some(parsed) => {
                proof {
                    reveal_strlit("file");
                    reveal_strlit("s3");
                    assert("file"@.len() != "s3"@.len());
                }
                FileSystem::from_parsed(parsed)
            },
        }
    }

    /// Chooses the file system that a parsed URI describes.
    pub fn from_parsed(parsed: ParsedUrl) -> (r: Result<FileSystem, Error>)
        ensures
            described_by(r, file_system_of_parts(parsed.parts(), parsed.local_path())),
    {
        if str_eq(parsed.scheme.as_str(), "s3") {
            let segments = match parsed.path_segments {
                None => return Err(Error::MissingPath),
                Some(v) => v,
            };
            let host = match parsed.host {
                None => return Err(Error::MissingHost),
                Some(h) => h,
            };
            if segments.len() == 0 {
                return Err(Error::MissingBucket);
            }
            let bucket = segments[0].clone();
            let path = join_from(&segments, 1, "/");
            proof {
                assert(segments@.map_values(|x: String| x@).skip(1) =~= segments@.map_values(
                    |x: String| x@,
                ).drop_first());
            }
            Ok(FileSystem::S3(S3 { host, bucket, path }))
        } else if str_eq(parsed.scheme.as_str(), "file") {
            match parsed.file_path {
                None => Err(Error::MissingPath),
                Some(path) => Ok(FileSystem::Local(Local { path })),
            }
        } else {
            Err(Error::UnknownFileSystemKind)
        }
    }
}

/// `parts[from..]` joined by `sep`.
pub fn join_from(parts: &Vec<String>, from: usize, sep: &str) -> (r: String)
    requires
        from <= parts@.len(),
    ensures
        r@ == join(parts@.map_values(|x: String| x@).skip(from as int), sep@),
{
    let ghost views = parts@.map_values(|x: String| x@);
    let mut r = String::new();
    let mut i = from;
    assert(views.subrange(from as int, from as int) =~= Seq::<Seq<char>>::empty());
    while i < parts.len()
        invariant
            from <= i <= parts@.len(),
            views == parts@.map_values(|x: String| x@),
            r@ == join(views.subrange(from as int, i as int), sep@),
        decreases parts@.len() - i,
    {
        let ghost before = views.subrange(from as int, i as int);
        let ghost after = views.subrange(from as int, i + 1);
        assert(after.drop_last() =~= before);
        if i > from {
            r.append(sep);
        } else {
            assert(after =~= seq![views[i as int]]);
        }
        r.append(parts[i].as_str());
        i = i + 1;
    }
    assert(views.subrange(from as int, i as int) =~= views.skip(from as int));
    r
}

impl Local {
    /// The path of the file for a reference: the directory joined with the
    /// identifier's text, as `PathBuf::join` joins a relative name.
    pub fn object_path(&self, file_ref: &FileReference) -> (r: Vec<u8>)
        ensures
            r@ == join_path(self.path@, encode_utf8(uuid_text(file_ref.reference.0))),
    {
        let id = file_ref.reference.to_string();
        let mut r: Vec<u8> = Vec::new();
        let mut i: usize = 0;
        while i < self.path.len()
            invariant
                i <= self.path@.len(),
                r@ == self.path@.take(i as int),
            decreases self.path@.len() - i,
        {
            r.push(self.path[i]);
            i = i + 1;
            assert(r@ =~= self.path@.take(i as int));
        }
        assert(r@ =~= self.path@);
        if r.len() > 0 && r[r.len() - 1] != 47u8 {
            r.push(47u8);
        }
        let mut tail = vstd::slice::slice_to_vec(id.as_str().as_bytes());
        r.append(&mut tail);
        r
    }
}

/// The byte `/`.
pub open spec fn slash() -> u8 {
    47u8
}

/// `name` joined onto `dir` with a separator unless `dir` is empty or
/// already ends with one.
pub open spec fn join_path(dir: Seq<u8>, name: Seq<u8>) -> Seq<u8> {
    if dir.len() == 0 || dir.last() == slash() {
        dir + name
    } else {
        dir + seq![slash()] + name
    }
}

impl S3 {
    /// The key of the object for a reference: the prefix, a slash, and the
    /// identifier's text.
    pub fn object_key(&self, file_ref: &FileReference) -> (r: String)
        ensures
            r@ == self.path@ + seq!['/'] + uuid_text(file_ref.reference.0),
    {
        let id = file_ref.reference.to_string();
        let mut r = self.path.clone();
        push_char(&mut r, '/');
        r.append(id.as_str());
        r
    }
}

/// How long, in seconds, a link to a file in S3 stays valid.
pub const PRESIGNED_LINK_LIFETIME: u64 = 600;

/// Where to find a stored file: its content, or a link to fetch it from.
#[derive(Clone, PartialEq, Eq, Debug)]
pub enum FilePointer {
    Redirect(String),
    Content(Vec<u8>),
}

/// The MD5 digest of `bytes`, as md5's `compute` computes it.
pub uninterp spec fn md5_digest(bytes: Seq<u8>) -> Seq<u8>;

/// Hashes bytes with md5's `compute`: 16 bytes.
#[verifier::external_body]
fn md5_compute(bytes: &[u8]) -> (r: Vec<u8>)
    ensures
        r@ == md5_digest(bytes@),
        r@.len() == 16,
{
    md5::compute(bytes).0.to_vec()
}

impl S3 {
    /// The `Content-MD5` sent with an object: the lower-case hexadecimal of
    /// its MD5 digest.
    pub fn content_md5(data: &[u8]) -> (r: String)
        ensures
            r@ == crate::db::users::hex_text(md5_digest(data@)),
    {
        let digest = md5_compute(data);
        crate::db::users::hex_encode(digest.as_slice())
    }
}

} // verus!
