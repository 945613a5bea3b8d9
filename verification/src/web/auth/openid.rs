//! Logging in through an OpenID Connect provider: the state the server
//! hands the provider, sealed so that only the server can read it back, and
//! the user a provider's answer describes.
use vstd::prelude::*;

use crate::db::Error as DbError;
use crate::status;
use crate::text::push_char;
use vstd::string::StringSliceAdditionalSpecFns;
use chacha20poly1305::aead::{Aead, KeyInit};

verus! {

/// The length in bytes of the nonce sealed states are encrypted under.
pub const NONCE_LEN: usize = 12;

/// The length in bytes of the key states are sealed with.
pub const KEY_LEN: usize = 32;

/// The list of providers a user can log in with.
pub struct ListProvidersResponse {
    pub providers: Vec<String>,
}

/// Where to send the user to log in with a provider.
pub struct BeginResponse {
    pub redirect_url: String,
}

/// What a provider sends back to finish a login.
pub struct CompleteOidcParams {
    pub state: String,
    pub code: String,
    pub scope: Option<String>,
    pub prompt: Option<String>,
}

/// What the server hands a provider at the start of a login and reads back
/// at its end: the provider, and the nonce the provider's token must carry.
pub struct State {
    pub provider: String,
    pub nonce: [u8; 16],
}

/// A user as a provider describes them.
pub struct UserIr {
    pub id: String,
    pub name: Option<String>,
    pub nick: Option<String>,
    pub email: Option<String>,
    pub profile_url: Option<String>,
    pub avatar_url: Option<String>,
}

/// The profile GitHub answers for the logged-in user.
pub struct GitHubUserResponse {
    pub id: u64,
    pub login: String,
    pub avatar_url: String,
    pub html_url: Option<String>,
    pub name: Option<String>,
    pub email: String,
}

/// The claims an OpenID Connect provider answers about the logged-in user.
pub struct Userinfo {
    pub sub: Option<String>,
    pub name: Option<String>,
    pub nickname: Option<String>,
    pub email: Option<String>,
    pub profile: Option<String>,
    pub picture: Option<String>,
}

/// Why a login through a provider failed.
#[derive(Clone, PartialEq, Eq, Debug)]
pub enum Error {
    Database(DbError),
    /// The state could not be written or read as JSON.
    Serde,
    /// No provider of that name is configured.
    UnknownOauthProvider,
    /// The provider's token is not valid.
    OAuth,
    /// The provider could not be asked.
    OAuthClient,
    /// The state could not be sealed or opened.
    Cipher,
    /// The state is not URL-safe base64.
    Base64,
    /// The provider sent no ID token.
    MissingToken,
    /// The user's profile could not be fetched from the provider.
    FetchProfile,
    /// No token could be had from the provider.
    RequestOAuthToken,
}

/// The status code answered for a failed login: the database's own, 502
/// where the provider could not be reached, else 500.
pub open spec fn error_status(e: Error) -> u16 {
    match e {
        Error::Database(d) => crate::db::error_status(d),
        Error::FetchProfile | Error::RequestOAuthToken => status::BAD_GATEWAY,
        _ => status::INTERNAL_SERVER_ERROR,
    }
}

impl Error {
    /// The status code answered for the error.
    pub fn status_code(&self) -> (r: u16)
        ensures
            r == error_status(*self),
    {
        match self {
            Error::Database(d) => d.status_code(),
            Error::FetchProfile | Error::RequestOAuthToken => status::BAD_GATEWAY,
            _ => status::INTERNAL_SERVER_ERROR,
        }
    }
}

/// The decimal digit character for `d`.
pub open spec fn digit_char(d: int) -> char {
    (48 + d) as char
}

/// `n` written in decimal.
pub open spec fn decimal_text(n: nat) -> Seq<char>
    decreases n,
{
    if n < 10 {
        seq![digit_char(n as int)]
    } else {
        decimal_text(n / 10).push(digit_char((n % 10) as int))
    }
}

/// Appends `n` in decimal to `s`.
fn push_decimal(s: &mut String, n: u64)
    ensures
        final(s)@ == old(s)@ + decimal_text(n as nat),
    decreases n,
{
    if n >= 10 {
        push_decimal(s, n / 10);
    }
    let c = ((48 + n % 10) as u8) as char;
    push_char(s, c);
}

/// `n` written in decimal.
pub fn decimal_string(n: u64) -> (r: String)
    ensures
        r@ == decimal_text(n as nat),
{
    let mut s = String::new();
    push_decimal(&mut s, n);
    assert(s@ =~= decimal_text(n as nat));
    s
}

impl UserIr {
    /// The user GitHub's profile describes: named after the login where the
    /// profile has no name.
    pub fn from_github(v: GitHubUserResponse) -> (r: UserIr)
        ensures
            r.id@ == decimal_text(v.id as nat),
            r.name matches Some(n) && n@ == (match v.name {
                Some(x) => x@,
                None => v.login@,
            }),
            r.nick == Some(v.login),
            r.email == Some(v.email),
            r.profile_url == v.html_url,
            r.avatar_url == Some(v.avatar_url),
    {
        let name = match v.name {
            Some(n) => n,
            None => v.login.clone(),
        };
        UserIr {
            id: decimal_string(v.id),
            name: Some(name),
            nick: Some(v.login),
            email: Some(v.email),
            profile_url: v.html_url,
            avatar_url: Some(v.avatar_url),
        }
    }

    /// The user an OpenID Connect provider's claims describe. The subject
    /// claim must be present.
    pub fn from_userinfo(v: Userinfo) -> (r: UserIr)
        requires
            v.sub is Some,
        ensures
            Some(r.id) == v.sub,
            r.name == v.name,
            r.nick == v.nickname,
            r.email == v.email,
            r.profile_url == v.profile,
            r.avatar_url == v.picture,
    {
        UserIr {
            id: v.sub.unwrap(),
            name: v.name,
            nick: v.nickname,
            email: v.email,
            profile_url: v.profile,
            avatar_url: v.picture,
        }
    }
}

/// The username of a user logging in through `provider`, who knows them by
/// `id`.
pub open spec fn oidc_username_text(provider: Seq<char>, id: Seq<char>) -> Seq<char> {
    provider + seq![':'] + id
}

/// The username of a user logging in through `provider`, who knows them by
/// `id`: the two joined by a colon.
pub fn oidc_username(provider: &str, id: &str) -> (r: String)
    ensures
        r@ == oidc_username_text(provider@, id@),
{
    let mut s = String::from_str(provider);
    push_char(&mut s, ':');
    s.append(id);
    s
}

/// A username made for a provider's user never passes for a password
/// login's username, so no password can open such an account.
pub proof fn lemma_oidc_username_not_for_passwords(provider: Seq<char>, id: Seq<char>)
    ensures
        !super::password::valid_username(oidc_username_text(provider, id)),
{
    assert(oidc_username_text(provider, id)[provider.len() as int] == ':');
}

/// The ciphertext ChaCha20-Poly1305 makes of `plaintext` with `key` and
/// `nonce`, or `None` where the plaintext is too long for it.
pub uninterp spec fn chacha_sealed(key: Seq<u8>, nonce: Seq<u8>, plaintext: Seq<u8>) -> Option<Seq<u8>>;

/// The plaintext ChaCha20-Poly1305 recovers from `ciphertext` with `key`
/// and `nonce`, or `None` where the ciphertext was not made with them.
pub uninterp spec fn chacha_opened(key: Seq<u8>, nonce: Seq<u8>, ciphertext: Seq<u8>) -> Option<Seq<u8>>;

/// The URL-safe base64 text, without padding, of `bytes`, as base64's
/// `encode_config` writes it.
pub uninterp spec fn base64_url_text(bytes: Seq<u8>) -> Seq<char>;

/// The bytes URL-safe base64 text without padding stands for, or `None`
/// where the text is not such base64, as base64's `decode_config` reads it.
pub uninterp spec fn base64_url_bytes(text: Seq<char>) -> Option<Seq<u8>>;

/// Encrypts with chacha20poly1305's `ChaCha20Poly1305::encrypt`: the
/// ciphertext, the length of the plaintext, followed by a 16-byte tag. It
/// decrypts, with the same key and nonce, to the plaintext. It fails
/// exactly when the plaintext reaches `u32::MAX` blocks of 64 bytes.
#[verifier::external_body]
fn chacha_seal(key: &[u8; 32], nonce: &[u8], plaintext: &[u8]) -> (r: Option<Vec<u8>>)
    requires
        nonce@.len() == NONCE_LEN,
    ensures
        match r {
            Some(c) => chacha_sealed(key@, nonce@, plaintext@) == Some(c@) && c@.len()
                == plaintext@.len() + 16 && chacha_opened(
                key@,
                nonce@,
                c@,
            ) == Some(plaintext@),
            None => chacha_sealed(key@, nonce@, plaintext@) is None,
        },
        r is Some <==> sealable(plaintext@.len()),
{
    let cipher = chacha20poly1305::ChaCha20Poly1305::new(chacha20poly1305::Key::from_slice(key));
    cipher.encrypt(chacha20poly1305::Nonce::from_slice(nonce), plaintext).ok()
}

/// Whether ChaCha20-Poly1305 can seal a plaintext of `len` bytes: it
/// takes fewer than `u32::MAX` blocks of 64 bytes.
pub open spec fn sealable(len: nat) -> bool {
    len / 64 < 0xffff_ffff
}

/// Decrypts with chacha20poly1305's `ChaCha20Poly1305::decrypt`. It
/// succeeds only on a ciphertext whose tag checks out, and the cipher is
/// deterministic: sealing the plaintext it gives with the same key and
/// nonce makes the very ciphertext it opened.
#[verifier::external_body]
fn chacha_open(key: &[u8; 32], nonce: &[u8], ciphertext: &[u8]) -> (r: Option<Vec<u8>>)
    requires
        nonce@.len() == NONCE_LEN,
    ensures
        match r {
            Some(p) => chacha_opened(key@, nonce@, ciphertext@) == Some(p@),
            None => chacha_opened(key@, nonce@, ciphertext@) is None,
        },
        r matches Some(p) ==> chacha_sealed(key@, nonce@, p@) == Some(ciphertext@),
{
    let cipher = chacha20poly1305::ChaCha20Poly1305::new(chacha20poly1305::Key::from_slice(key));
    cipher.decrypt(chacha20poly1305::Nonce::from_slice(nonce), ciphertext).ok()
}

/// Whether base64 can encode `len` bytes without its length computation
/// overflowing.
pub open spec fn base64_encodable(len: nat) -> bool {
    4 * (len / 3 + 1) <= usize::MAX
}

/// The length of the URL-safe base64 text without padding of `len` bytes:
/// four characters for each three bytes, and two or three for the bytes
/// left over.
pub open spec fn base64_text_len(len: nat) -> nat {
    4 * (len / 3) + if len % 3 == 0 {
        0
    } else {
        len % 3 + 1
    }
}

/// Encodes bytes as URL-safe base64 without padding, with base64's
/// `encode_config`. The text decodes back to the bytes; it is made of the
/// ASCII characters of the URL-safe alphabet, as many as `encoded_size`
/// computes.
#[verifier::external_body]
fn base64_url_encode(bytes: &[u8]) -> (r: String)
    requires
        base64_encodable(bytes@.len()),
    ensures
        r@ == base64_url_text(bytes@),
        base64_url_bytes(r@) == Some(bytes@),
        r@.len() == base64_text_len(bytes@.len()),
        vstd::utf8::is_ascii_chars(r@),
{
    base64::encode_config(bytes, base64::URL_SAFE_NO_PAD)
}

/// Decodes URL-safe base64 without padding, with base64's `decode_config`.
#[verifier::external_body]
fn base64_url_decode(text: &str) -> (r: Option<Vec<u8>>)
    requires
        base64_decodable(text.spec_bytes().len()),
    ensures
        match r {
            Some(b) => base64_url_bytes(text@) == Some(b@),
            None => base64_url_bytes(text@) is None,
        },
{
    base64::decode_config(text, base64::URL_SAFE_NO_PAD).ok()
}

/// A random nonce, from rand's `random`.
#[verifier::external_body]
fn random_nonce() -> (r: Vec<u8>)
    ensures
        r@.len() == NONCE_LEN,
{
    rand::random::<[u8; 12]>().to_vec()
}

/// The nonce a provider's token must carry, written as URL-safe base64
/// without padding.
pub fn nonce_text(nonce: &[u8; 16]) -> (r: String)
    ensures
        r@ == base64_url_text(nonce@),
{
    base64_url_encode(nonce)
}

/// What opening the sealed text `text` with `key` gives: its base64 decoded,
/// the last twelve bytes taken as the nonce and the rest decrypted.
pub open spec fn opened(key: Seq<u8>, text: Seq<char>) -> Result<Seq<u8>, Error> {
    match base64_url_bytes(text) {
        None => Err(Error::Base64),
        Some(b) => match chacha_opened(
            key,
            b.skip(b.len() - NONCE_LEN),
            b.take(b.len() - NONCE_LEN),
        ) {
            Some(p) => Ok(p),
            None => Err(Error::Cipher),
        },
    }
}

/// Whether the text `text` is too short, once decoded, to hold a nonce.
pub open spec fn too_short_for_nonce(text: Seq<char>) -> bool {
    base64_url_bytes(text) matches Some(b) && b.len() < NONCE_LEN
}

/// Seals `input` with `key` under a random nonce, and writes the ciphertext
/// followed by the nonce as URL-safe base64 without padding. Opening the
/// text with the same key gives back `input`, and the text is one that
/// `decrypt_url_safe` takes. Fails, with `Cipher`, exactly where the input
/// is too long to seal.
pub fn encrypt_url_safe(input: &[u8], key: &[u8; 32]) -> (r: Result<String, Error>)
    requires
        base64_encodable((input@.len() + 16 + NONCE_LEN) as nat),
    ensures
        r matches Ok(s) ==> opened(key@, s@) == Ok::<Seq<u8>, Error>(input@) && !too_short_for_nonce(
            s@,
        ) && exists|
            nonce: Seq<u8>,
            c: Seq<u8>,
        |
            nonce.len() == NONCE_LEN && chacha_sealed(key@, nonce, input@) == Some(c) && s@
                == base64_url_text(c + nonce),
        r matches Ok(s) ==> base64_decodable(vstd::utf8::encode_utf8(s@).len()),
        r is Err ==> r == Err::<String, Error>(Error::Cipher),
        r is Ok <==> sealable(input@.len()),
{
    let nonce = random_nonce();
    let mut ciphertext = match chacha_seal(key, nonce.as_slice(), input) {
        Some(c) => c,
        None => return Err(Error::Cipher),
    };
    let ghost sealed = ciphertext@;
    let mut tail = nonce.clone();
    ciphertext.append(&mut tail);
    let text = base64_url_encode(ciphertext.as_slice());
    proof {
        let b = ciphertext@;
        assert(b =~= sealed + nonce@);
        assert(b.skip(b.len() - NONCE_LEN) =~= nonce@);
        assert(b.take(b.len() - NONCE_LEN) =~= sealed);
        vstd::utf8::is_ascii_chars_encode_utf8(text@);
        lemma_base64_text_decodable(b.len());
    }
    Ok(text)
}

/// Whether `text` is the base64 of a ciphertext followed by its nonce,
/// where the ciphertext is what sealing `plain` with `key` under that nonce
/// makes: a state this server wrote.
pub open spec fn sealed_text_of(key: Seq<u8>, text: Seq<char>, plain: Seq<u8>) -> bool {
    base64_url_bytes(text) matches Some(b) && b.len() >= NONCE_LEN && chacha_sealed(
        key,
        b.skip(b.len() - NONCE_LEN),
        plain,
    ) == Some(b.take(b.len() - NONCE_LEN))
}

/// Opens decoded bytes sealed with `key`: the last twelve bytes are the
/// nonce, the rest the ciphertext. Whatever opens was sealed with `key`
/// under that nonce: bytes that no holder of the key sealed are refused.
pub fn open_decoded(decoded: Vec<u8>, key: &[u8; 32]) -> (r: Result<Vec<u8>, Error>)
    requires
        decoded@.len() >= NONCE_LEN,
    ensures
        match chacha_opened(
            key@,
            decoded@.skip(decoded@.len() - NONCE_LEN),
            decoded@.take(decoded@.len() - NONCE_LEN),
        ) {
            Some(p) => r matches Ok(v) && v@ == p,
            None => r == Err::<Vec<u8>, Error>(Error::Cipher),
        },
        r matches Ok(v) ==> chacha_sealed(
            key@,
            decoded@.skip(decoded@.len() - NONCE_LEN),
            v@,
        ) == Some(decoded@.take(decoded@.len() - NONCE_LEN)),
{
    let mut ciphertext = decoded;
    let ghost b = ciphertext@;
    let at = ciphertext.len() - NONCE_LEN;
    let nonce = ciphertext.split_off(at);
    assert(nonce@ =~= b.skip(b.len() - NONCE_LEN));
    assert(ciphertext@ =~= b.take(b.len() - NONCE_LEN));
    match chacha_open(key, nonce.as_slice(), ciphertext.as_slice()) {
        Some(p) => Ok(p),
        None => Err(Error::Cipher),
    }
}

/// Opens a state sealed with `key`: decodes the base64, takes the last
/// twelve bytes as the nonce and decrypts the rest. The decoded text must
/// hold at least a nonce. A state opens only where it is the text of a
/// plaintext sealed with `key`, so a forged state is refused.
pub fn decrypt_url_safe(input: &str, key: &[u8; 32]) -> (r: Result<Vec<u8>, Error>)
    requires
        base64_decodable(input.spec_bytes().len()),
        !too_short_for_nonce(input@),
    ensures
        match opened(key@, input@) {
            Ok(p) => r matches Ok(v) && v@ == p,
            Err(e) => r == Err::<Vec<u8>, Error>(e),
        },
        r matches Ok(v) ==> sealed_text_of(key@, input@, v@),
{
    match base64_url_decode(input) {
        Some(b) => open_decoded(b, key),
        None => Err(Error::Base64),
    }
}

/// Whether base64 can decode a text of `len` bytes without its length
/// computation overflowing.
pub open spec fn base64_decodable(len: nat) -> bool {
    len + 3 <= usize::MAX
}

/// A text base64 could write without its length computation overflowing
/// can be decoded again: `usize::MAX` is three more than a multiple of four,
/// so the encoded length leaves room for the three bytes decoding adds.
proof fn lemma_base64_text_decodable(len: nat)
    requires
        base64_encodable(len),
    ensures
        base64_decodable(base64_text_len(len)),
{
    let k = len / 3;
    assert(usize::MAX % 4 == 3) by {
        assert(usize::MAX == 0xffff_ffff || usize::MAX == 0xffff_ffff_ffff_ffff);
    }
    assert(4 * k + 6 <= usize::MAX) by (nonlinear_arith)
        requires
            4 * (k + 1) <= usize::MAX,
            usize::MAX % 4 == 3,
    ;
}

/// Opens a state sealed with `key`, or gives `None` where opening it cannot
/// be tried: the text is too long for base64 to decode, or, decoded, too
/// short to hold a nonce.
pub fn try_decrypt_url_safe(input: &str, key: &[u8; 32]) -> (r: Option<Result<Vec<u8>, Error>>)
    ensures
        !base64_decodable(input.spec_bytes().len()) ==> r is None,
        base64_decodable(input.spec_bytes().len()) && too_short_for_nonce(input@) ==> r is None,
        base64_decodable(input.spec_bytes().len()) && !too_short_for_nonce(input@) ==> (r matches Some(
            res,
        ) && match opened(key@, input@) {
            Ok(p) => res matches Ok(v) && v@ == p,
            Err(e) => res == Err::<Vec<u8>, Error>(e),
        }),
        r matches Some(Ok(v)) ==> sealed_text_of(key@, input@, v@),
{
    let len = input.as_bytes().len();
    if len > usize::MAX - 3 {
        return None;
    }
    if let Some(b) = base64_url_decode(input) {
        if b.len() < NONCE_LEN {
            return None;
        }
    }
    Some(decrypt_url_safe(input, key))
}

/// What `encrypt_url_safe` seals with a key, `decrypt_url_safe` opens with
/// the same key: sealing `input` under `nonce` and writing the ciphertext
/// and the nonce as base64 gives a text that opens to `input`.
pub proof fn lemma_sealed_state_opens(key: Seq<u8>, nonce: Seq<u8>, sealed: Seq<u8>, input: Seq<u8>)
    requires
        nonce.len() == NONCE_LEN,
        chacha_opened(key, nonce, sealed) == Some(input),
        base64_url_bytes(base64_url_text(sealed + nonce)) == Some(sealed + nonce),
    ensures
        opened(key, base64_url_text(sealed + nonce)) == Ok::<Seq<u8>, Error>(input),
        !too_short_for_nonce(base64_url_text(sealed + nonce)),
{
    let b = sealed + nonce;
    assert(b.skip(b.len() - NONCE_LEN) =~= nonce);
    assert(b.take(b.len() - NONCE_LEN) =~= sealed);
}

} // verus!
