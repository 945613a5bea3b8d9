//! Users, their sessions and their SSH keys.
use vstd::prelude::*;

use super::{Error, InsertOutcome};
use crate::text::{chars_of, push_char, string_of};
use crate::uuid::{hex_digit_char, SqlUuid};

verus! {

/// A registered user.
#[derive(Clone, PartialEq, Eq, Debug)]
pub struct User {
    pub id: i32,
    pub uuid: SqlUuid,
    pub username: String,
    pub password: Option<String>,
    pub name: Option<String>,
    pub nick: Option<String>,
    pub email: Option<String>,
    pub external_profile_url: Option<String>,
    pub picture_url: Option<String>,
}

/// The name shown for a user: the nickname, else the full name, else the
/// username.
pub open spec fn display_name_of(u: User) -> Seq<char> {
    match u.nick {
        Some(n) => n@,
        None => match u.name {
            Some(n) => n@,
            None => u.username@,
        },
    }
}

impl User {
    /// The name shown for the user.
    pub fn display_name(&self) -> (r: &str)
        ensures
            r@ == display_name_of(*self),
    {
        match &self.nick {
            Some(n) => n.as_str(),
            None => match &self.name {
                Some(n) => n.as_str(),
                None => self.username.as_str(),
            },
        }
    }
}

/// A login session of a user.
#[derive(Clone, PartialEq, Eq, Debug)]
pub struct UserSession {
    pub id: i32,
    pub user_id: i32,
    pub session_key: String,
    pub user_ssh_key_id: Option<i32>,
    /// Seconds since the Unix epoch.
    pub expires_at: Option<i64>,
    pub user_agent: Option<String>,
    pub ip: Option<String>,
    pub uuid: SqlUuid,
}

/// The length of a session key.
pub const SESSION_KEY_LENGTH: usize = 48;

/// Whether `c` is an ASCII letter or digit.
pub open spec fn is_ascii_alphanumeric(c: char) -> bool {
    ('a' <= c <= 'z') || ('A' <= c <= 'Z') || ('0' <= c <= '9')
}

/// Draws `len` characters from rand's `Alphanumeric` distribution, which
/// its documentation describes as uniform over the ASCII letters and
/// digits.
#[verifier::external_body]
fn random_alphanumeric(len: usize) -> (r: String)
    ensures
        r@.len() == len,
        forall|i: int| 0 <= i < len ==> #[trigger] is_ascii_alphanumeric(r@[i]),
{
    rand::Rng::sample_iter(rand::thread_rng(), &rand::distributions::Alphanumeric).take(len).map(char::from).collect()
}

impl UserSession {
    /// A new random session key: 48 ASCII letters and digits.
    pub fn generate_session_key() -> (r: String)
        ensures
            r@.len() == SESSION_KEY_LENGTH,
            forall|i: int| 0 <= i < SESSION_KEY_LENGTH ==> #[trigger] is_ascii_alphanumeric(r@[i]),
    {
        random_alphanumeric(SESSION_KEY_LENGTH)
    }
}

/// An SSH public key a user has registered.
#[derive(Clone, PartialEq, Eq, Debug)]
pub struct UserSshKey {
    pub id: i32,
    pub uuid: SqlUuid,
    pub name: String,
    pub user_id: i32,
    pub ssh_key: Vec<u8>,
    /// Seconds since the Unix epoch.
    pub created_at: i64,
    /// Seconds since the Unix epoch.
    pub last_used_at: Option<i64>,
}

/// The lower-case hexadecimal text of bytes, two digits per byte.
pub open spec fn hex_text(bytes: Seq<u8>) -> Seq<char>
    decreases bytes.len(),
{
    if bytes.len() == 0 {
        seq![]
    } else {
        hex_text(bytes.drop_last()) + seq![
            hex_digit_char((bytes.last() / 16) as int),
            hex_digit_char((bytes.last() % 16) as int),
        ]
    }
}

/// Encodes bytes with `hex::encode`, documented to write each byte as two
/// lower-case hexadecimal digits.
#[verifier::external_body]
pub(crate) fn hex_encode(bytes: &[u8]) -> (r: String)
    ensures
        r@ == hex_text(bytes@),
{
    hex::encode(bytes)
}

/// `digits` with a colon before every pair of characters but the first.
pub open spec fn colon_pairs(digits: Seq<char>) -> Seq<char>
    decreases digits.len(),
{
    if digits.len() == 0 {
        seq![]
    } else {
        let before = colon_pairs(digits.drop_last());
        let i = digits.len() - 1;
        if i != 0 && i % 2 == 0 {
            before.push(':').push(digits.last())
        } else {
            before.push(digits.last())
        }
    }
}

impl UserSshKey {
    /// The text shown for a key's fingerprint bytes: their lower-case hex
    /// digits in pairs separated by colons.
    pub fn format_fingerprint(raw: &[u8]) -> (r: String)
        requires
            raw@.len() > 0,
        ensures
            r@ == colon_pairs(hex_text(raw@)),
    {
        let raw_hex = hex_encode(raw);
        let chars = chars_of(raw_hex.as_str());
        let mut hex = String::new();
        let mut i: usize = 0;
        while i < chars.len()
            invariant
                chars@ == raw_hex@,
                i <= chars@.len(),
                hex@ == colon_pairs(chars@.take(i as int)),
            decreases chars@.len() - i,
        {
            assert(chars@.take(i + 1).drop_last() =~= chars@.take(i as int));
            if i != 0 && i % 2 == 0 {
                push_char(&mut hex, ':');
            }
            push_char(&mut hex, chars[i]);
            i = i + 1;
        }
        assert(chars@.take(i as int) =~= chars@);
        hex
    }
}

/// Whether `c` is white space as `char::is_whitespace` defines it: the
/// characters with the Unicode `White_Space` property.
pub open spec fn is_whitespace(c: char) -> bool {
    ||| '\u{9}' <= c <= '\u{d}'
    ||| c == ' '
    ||| c == '\u{85}'
    ||| c == '\u{a0}'
    ||| c == '\u{1680}'
    ||| '\u{2000}' <= c <= '\u{200a}'
    ||| c == '\u{2028}'
    ||| c == '\u{2029}'
    ||| c == '\u{202f}'
    ||| c == '\u{205f}'
    ||| c == '\u{3000}'
}

/// Whether a character is white space, as `char::is_whitespace` decides.
pub fn char_is_whitespace(c: char) -> (r: bool)
    ensures
        r == is_whitespace(c),
{
    ('\u{9}' <= c && c <= '\u{d}') || c == ' ' || c == '\u{85}' || c == '\u{a0}' || c
        == '\u{1680}' || ('\u{2000}' <= c && c <= '\u{200a}') || c == '\u{2028}' || c
        == '\u{2029}' || c == '\u{202f}' || c == '\u{205f}' || c == '\u{3000}'
}

/// The words finished so far and the word being read, after reading `s`
/// from the left.
pub open spec fn scan_words(s: Seq<char>) -> (Seq<Seq<char>>, Seq<char>)
    decreases s.len(),
{
    if s.len() == 0 {
        (seq![], seq![])
    } else {
        let (done, current) = scan_words(s.drop_last());
        if is_whitespace(s.last()) {
            if current.len() > 0 {
                (done.push(current), seq![])
            } else {
                (done, seq![])
            }
        } else {
            (done, current.push(s.last()))
        }
    }
}

/// The runs of non-white-space characters of `s`, as `split_whitespace`
/// yields them.
pub open spec fn words(s: Seq<char>) -> Seq<Seq<char>> {
    let (done, current) = scan_words(s);
    if current.len() > 0 {
        done.push(current)
    } else {
        done
    }
}

/// The key and name a line in `ssh-add -L` form holds: with one word it is
/// the key; with more, the second word is the key and the third (if any)
/// the name; the name defaults to `(none)`.
pub open spec fn ssh_key_parts(line: Seq<char>) -> Option<(Seq<char>, Seq<char>)> {
    let w = words(line);
    if w.len() == 0 {
        None
    } else if w.len() == 1 {
        Some((w[0], "(none)"@))
    } else if w.len() == 2 {
        Some((w[1], "(none)"@))
    } else {
        Some((w[1], w[2]))
    }
}

/// The runs of non-white-space characters of `s`.
pub fn split_whitespace(s: &str) -> (r: Vec<String>)
    ensures
        r@.map_values(|w: String| w@) == words(s@),
{
    let chars = chars_of(s);
    let mut done: Vec<String> = Vec::new();
    let mut current = String::new();
    let mut i: usize = 0;
    while i < chars.len()
        invariant
            chars@ == s@,
            i <= chars@.len(),
            (done@.map_values(|w: String| w@), current@) == scan_words(chars@.take(i as int)),
        decreases chars@.len() - i,
    {
        assert(chars@.take(i + 1).drop_last() =~= chars@.take(i as int));
        let c = chars[i];
        if char_is_whitespace(c) {
            if !current.as_str().is_empty() {
                let ghost before = done@.map_values(|w: String| w@);
                let mut finished = String::new();
                std::mem::swap(&mut finished, &mut current);
                done.push(finished);
                assert(done@.map_values(|w: String| w@) =~= before.push(finished@));
            }
            current = String::new();
        } else {
            push_char(&mut current, c);
        }
        i = i + 1;
    }
    assert(chars@.take(i as int) =~= s@);
    if !current.as_str().is_empty() {
        let ghost before = done@.map_values(|w: String| w@);
        done.push(current);
        assert(done@.map_values(|w: String| w@) =~= before.push(current@));
    }
    done
}

impl User {
    /// The key and name of an SSH key line in `ssh-add -L` form
    /// (`ssh-ed25519 AAAAC3N... comment`); a line with no words is refused
    /// as an unreadable key.
    pub fn split_ssh_key(ssh_key: &str) -> (r: Result<(String, String), Error>)
        ensures
            match ssh_key_parts(ssh_key@) {
                None => r == Err::<(String, String), Error>(Error::KeyParse),
                Some((key, name)) => r matches Ok((k, n)) && k@ == key && n@ == name,
            },
    {
        let words = split_whitespace(ssh_key);
        let ghost w = words@.map_values(|x: String| x@);
        assert(w.len() == words@.len());
        if words.len() == 0 {
            Err(Error::KeyParse)
        } else if words.len() == 1 {
            Ok((words[0].clone(), "(none)".to_owned()))
        } else if words.len() == 2 {
            Ok((words[1].clone(), "(none)".to_owned()))
        } else {
            Ok((words[1].clone(), words[2].clone()))
        }
    }
}

/// Whether a session expiring at `expires_at` (seconds since the Unix
/// epoch; never where absent) is still live at `now`.
pub fn session_is_live(expires_at: Option<i64>, now: i64) -> (r: bool)
    ensures
        r == match expires_at {
            None => true,
            Some(t) => t > now,
        },
{
    match expires_at {
        None => true,
        Some(t) => t > now,
    }
}

/// What registering a user leads to, given what inserting the row did: a
/// username already there is taken.
pub fn register_outcome(outcome: InsertOutcome) -> (r: Result<(), Error>)
    ensures
        r == match outcome {
            InsertOutcome::Inserted => Ok::<(), Error>(()),
            InsertOutcome::UniqueViolation => Err(Error::UsernameTaken),
            InsertOutcome::Failed => Err(Error::Query),
        },
{
    match outcome {
        InsertOutcome::Inserted => Ok(()),
        InsertOutcome::UniqueViolation => Err(Error::UsernameTaken),
        InsertOutcome::Failed => Err(Error::Query),
    }
}

/// The row of a user first seen through an OpenID Connect provider.
pub struct NewUser {
    pub username: String,
    pub uuid: SqlUuid,
    pub name: Option<String>,
    pub nick: Option<String>,
    pub email: Option<String>,
    pub external_profile_url: Option<String>,
    pub picture_url: Option<String>,
}

impl User {
    /// The user a provider's login stands for: the stored user of that
    /// username where there is one, else the row to insert for them, with a
    /// fresh identifier and what the provider told of them.
    pub fn find_or_create(
        found: Option<User>,
        username: String,
        name: Option<String>,
        nick: Option<String>,
        email: Option<String>,
        external_profile_url: Option<String>,
        picture_url: Option<String>,
    ) -> (r: Result<User, NewUser>)
        ensures
            match found {
                Some(u) => r == Ok::<User, NewUser>(u),
                None => r matches Err(n) && n.username == username && n.name == name && n.nick
                    == nick && n.email == email && n.external_profile_url == external_profile_url
                    && n.picture_url == picture_url,
            },
    {
        match found {
            Some(u) => Ok(u),
            None => Err(
                NewUser {
                    username,
                    uuid: SqlUuid::random(),
                    name,
                    nick,
                    email,
                    external_profile_url,
                    picture_url,
                },
            ),
        }
    }
}

} // verus!
