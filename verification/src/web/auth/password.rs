//! Registering and logging in with a username and a password.
use vstd::prelude::*;

use crate::db::users::User;
use crate::db::Error as DbError;
use crate::status;
use crate::text::contains_char;

verus! {

/// A request to register a user.
pub struct RegisterRequest {
    pub username: String,
    pub password: String,
}

/// A request to log in.
pub struct LoginRequest {
    pub username: String,
    pub password: String,
}

/// The answer to a registration.
pub struct RegisterResponse {
    pub success: bool,
}

/// The fewest characters a password a user registers with may have.
pub const MIN_PASSWORD_LENGTH: usize = 6;

/// Why a registration was refused.
#[derive(Clone, PartialEq, Eq, Debug)]
pub enum RegisterError {
    /// The database failed.
    Database(DbError),
    /// The password could not be hashed.
    Bcrypt,
    /// The username is empty or holds a `:`.
    InvalidUsername,
    /// The username is already taken.
    UsernameTaken,
    /// Password authentication is disabled.
    PasswordAuthDisabled,
    /// The password has fewer than six characters.
    PasswordRequirementNotMet,
}

/// Why a login was refused.
#[derive(Clone, PartialEq, Eq, Debug)]
pub enum LoginError {
    /// The database failed.
    Database(DbError),
    /// The stored password hash could not be checked.
    Bcrypt,
    /// No user may log in with this username and a password.
    UnknownUser,
    /// The password is wrong or empty.
    InvalidPassword,
    /// Password authentication is disabled.
    PasswordAuthDisabled,
}

/// Whether a username may be used with a password: it is not empty and
/// holds no `:`, which separates the provider from the user's identifier
/// in the usernames of OpenID Connect logins.
pub open spec fn valid_username(username: Seq<char>) -> bool {
    !username.contains(':') && username.len() > 0
}

/// Whether `username` may be used with a password.
pub fn validate_username(username: &str) -> (r: bool)
    ensures
        r == valid_username(username@),
{
    !contains_char(username, ':') && !username.is_empty()
}

/// Whether bcrypt accepts `password` for the hash `hash`, or `None` where
/// the hash is malformed, as bcrypt's `verify` computes it.
pub uninterp spec fn bcrypt_verdict(password: Seq<char>, hash: Seq<char>) -> Option<bool>;

/// Hashes a password with bcrypt's `hash` at its default cost, with a
/// random salt. bcrypt's `verify` accepts the password for the hash it
/// gives. `None` where no random salt could be had.
#[verifier::external_body]
fn bcrypt_hash(password: &str) -> (r: Option<String>)
    ensures
        r matches Some(h) ==> bcrypt_verdict(password@, h@) == Some(true),
{
    bcrypt::hash(password, bcrypt::DEFAULT_COST).ok()
}

/// Checks a password against a bcrypt hash with bcrypt's `verify`.
#[verifier::external_body]
fn bcrypt_verify(password: &str, hash: &str) -> (r: Option<bool>)
    ensures
        r == bcrypt_verdict(password@, hash@),
{
    bcrypt::verify(password, hash).ok()
}

/// The hash stored for a new user's password.
pub fn hash_password(password: &str) -> (r: Result<String, RegisterError>)
    ensures
        r matches Ok(h) ==> bcrypt_verdict(password@, h@) == Some(true),
        r is Err ==> r == Err::<String, RegisterError>(RegisterError::Bcrypt),
{
    match bcrypt_hash(password) {
        Some(h) => Ok(h),
        None => Err(RegisterError::Bcrypt),
    }
}

/// What a registration request is refused for before anything is stored:
/// password logins being disabled, then the username, then a password of
/// fewer than six characters.
pub open spec fn register_refusal(enabled: bool, username: Seq<char>, password: Seq<char>) -> Option<RegisterError> {
    if !enabled {
        Some(RegisterError::PasswordAuthDisabled)
    } else if !valid_username(username) {
        Some(RegisterError::InvalidUsername)
    } else if password.len() < MIN_PASSWORD_LENGTH {
        Some(RegisterError::PasswordRequirementNotMet)
    } else {
        None
    }
}

/// Checks a registration request before its password is hashed.
pub fn check_registration(enabled: bool, req: &RegisterRequest) -> (r: Result<(), RegisterError>)
    ensures
        match register_refusal(enabled, req.username@, req.password@) {
            Some(e) => r == Err::<(), RegisterError>(e),
            None => r == Ok::<(), RegisterError>(()),
        },
{
    if !enabled {
        return Err(RegisterError::PasswordAuthDisabled);
    }
    if !validate_username(req.username.as_str()) {
        return Err(RegisterError::InvalidUsername);
    }
    if crate::text::chars_of(req.password.as_str()).len() < MIN_PASSWORD_LENGTH {
        return Err(RegisterError::PasswordRequirementNotMet);
    }
    Ok(())
}

/// The answer to a registration once the user was stored: a taken username
/// is reported as such, any other database error passed on.
pub fn registration_outcome(stored: Result<(), DbError>) -> (r: Result<RegisterResponse, RegisterError>)
    ensures
        match stored {
            Ok(()) => r matches Ok(resp) && resp.success,
            Err(DbError::UsernameTaken) => r == Err::<RegisterResponse, RegisterError>(
                RegisterError::UsernameTaken,
            ),
            Err(e) => r == Err::<RegisterResponse, RegisterError>(RegisterError::Database(e)),
        },
{
    match stored {
        Ok(()) => Ok(RegisterResponse { success: true }),
        Err(DbError::UsernameTaken) => Err(RegisterError::UsernameTaken),
        Err(e) => Err(RegisterError::Database(e)),
    }
}

/// What a login request is refused for before the user is looked up:
/// password logins being disabled, an invalid username, an empty password.
pub open spec fn login_refusal(enabled: bool, username: Seq<char>, password: Seq<char>) -> Option<LoginError> {
    if !enabled {
        Some(LoginError::PasswordAuthDisabled)
    } else if !valid_username(username) {
        Some(LoginError::UnknownUser)
    } else if password.len() == 0 {
        Some(LoginError::InvalidPassword)
    } else {
        None
    }
}

/// Checks a login request before the user is looked up.
pub fn check_login(enabled: bool, req: &LoginRequest) -> (r: Result<(), LoginError>)
    ensures
        match login_refusal(enabled, req.username@, req.password@) {
            Some(e) => r == Err::<(), LoginError>(e),
            None => r == Ok::<(), LoginError>(()),
        },
{
    if !enabled {
        return Err(LoginError::PasswordAuthDisabled);
    }
    if !validate_username(req.username.as_str()) {
        return Err(LoginError::UnknownUser);
    }
    if req.password.as_str().is_empty() {
        return Err(LoginError::InvalidPassword);
    }
    Ok(())
}

/// What bcrypt's verdict on the password of a user with a hash means for
/// the login: the user is let in on `true`, the password is wrong on
/// `false`, and a malformed hash is a bcrypt error.
pub open spec fn verdict_answer_of(user: User, verdict: Option<bool>) -> Result<User, LoginError> {
    match verdict {
        Some(true) => Ok(user),
        Some(false) => Err(LoginError::InvalidPassword),
        None => Err(LoginError::Bcrypt),
    }
}

/// Who logging in with `password` as the user found (if any) lets in: a
/// user without a password hash (one made by an OpenID Connect login) is
/// unknown to password logins.
pub open spec fn login_answer(password: Seq<char>, found: Option<User>) -> Result<User, LoginError> {
    match found {
        None => Err(LoginError::UnknownUser),
        Some(u) => match u.password {
            None => Err(LoginError::UnknownUser),
            Some(hash) => verdict_answer_of(u, bcrypt_verdict(password, hash@)),
        },
    }
}

/// Checks the password against the user found by username.
pub fn authenticate(password: &str, found: Option<User>) -> (r: Result<User, LoginError>)
    ensures
        r == login_answer(password@, found),
{
    let user = match found {
        None => return Err(LoginError::UnknownUser),
        Some(u) => u,
    };
    let verdict = match &user.password {
        None => return Err(LoginError::UnknownUser),
        Some(hash) => bcrypt_verify(password, hash.as_str()),
    };
    verdict_answer(user, verdict)
}

/// The answer to a login once bcrypt has judged the password against the
/// user's hash.
pub fn verdict_answer(user: User, verdict: Option<bool>) -> (r: Result<User, LoginError>)
    ensures
        r == verdict_answer_of(user, verdict),
{
    match verdict {
        Some(true) => Ok(user),
        Some(false) => Err(LoginError::InvalidPassword),
        None => Err(LoginError::Bcrypt),
    }
}

/// The status code answered for a refused registration: 500 for the
/// database or hashing, 400 for what the request got wrong, 403 where
/// password logins are disabled.
pub open spec fn register_status(e: RegisterError) -> u16 {
    match e {
        RegisterError::Database(_) | RegisterError::Bcrypt => status::INTERNAL_SERVER_ERROR,
        RegisterError::InvalidUsername | RegisterError::UsernameTaken
        | RegisterError::PasswordRequirementNotMet => status::BAD_REQUEST,
        RegisterError::PasswordAuthDisabled => status::FORBIDDEN,
    }
}

impl RegisterError {
    /// The status code answered for the error.
    pub fn status_code(&self) -> (r: u16)
        ensures
            r == register_status(*self),
    {
        match self {
            RegisterError::Database(_) | RegisterError::Bcrypt => status::INTERNAL_SERVER_ERROR,
            RegisterError::InvalidUsername | RegisterError::UsernameTaken
            | RegisterError::PasswordRequirementNotMet => status::BAD_REQUEST,
            RegisterError::PasswordAuthDisabled => status::FORBIDDEN,
        }
    }

    /// The message answered for the error.
    pub fn message(&self) -> (r: &'static str)
        ensures
            r@ == match *self {
                RegisterError::Database(_) => "Failed to query database"@,
                RegisterError::Bcrypt => "Failed to hash password"@,
                RegisterError::InvalidUsername => "Username is invalid"@,
                RegisterError::UsernameTaken => "Username already taken"@,
                RegisterError::PasswordAuthDisabled => "Password authentication is disabled"@,
                RegisterError::PasswordRequirementNotMet => "Password must be at least 6 characters long"@,
            },
    {
        match self {
            RegisterError::Database(_) => "Failed to query database",
            RegisterError::Bcrypt => "Failed to hash password",
            RegisterError::InvalidUsername => "Username is invalid",
            RegisterError::UsernameTaken => "Username already taken",
            RegisterError::PasswordAuthDisabled => "Password authentication is disabled",
            RegisterError::PasswordRequirementNotMet => "Password must be at least 6 characters long",
        }
    }
}

/// The status code answered for a refused login: 500 for the database or
/// hashing, else 403.
pub open spec fn login_status(e: LoginError) -> u16 {
    match e {
        LoginError::Database(_) | LoginError::Bcrypt => status::INTERNAL_SERVER_ERROR,
        _ => status::FORBIDDEN,
    }
}

impl LoginError {
    /// The status code answered for the error.
    pub fn status_code(&self) -> (r: u16)
        ensures
            r == login_status(*self),
    {
        match self {
            LoginError::Database(_) | LoginError::Bcrypt => status::INTERNAL_SERVER_ERROR,
            _ => status::FORBIDDEN,
        }
    }

    /// The message answered for the error; a wrong password and an unknown
    /// user are not told apart.
    pub fn message(&self) -> (r: &'static str)
        ensures
            r@ == match *self {
                LoginError::Database(_) => "Failed to query database"@,
                LoginError::Bcrypt => "Failed to hash password"@,
                LoginError::UnknownUser | LoginError::InvalidPassword => "Invalid username/password"@,
                LoginError::PasswordAuthDisabled => "Password authentication is disabled"@,
            },
    {
        match self {
            LoginError::Database(_) => "Failed to query database",
            LoginError::Bcrypt => "Failed to hash password",
            LoginError::UnknownUser | LoginError::InvalidPassword => "Invalid username/password",
            LoginError::PasswordAuthDisabled => "Password authentication is disabled",
        }
    }
}

/// A user stored with the hash made of their password logs in with that
/// password.
pub proof fn lemma_registered_password_logs_in(password: Seq<char>, hash: Seq<char>, user: User)
    requires
        bcrypt_verdict(password, hash) == Some(true),
        user.password matches Some(h) && h@ == hash,
    ensures
        login_answer(password, Some(user)) == Ok::<User, LoginError>(user),
{
}

/// A user without a password, as OpenID Connect logins make them, cannot
/// log in with any password.
pub proof fn lemma_passwordless_user_refused(password: Seq<char>, user: User)
    requires
        user.password is None,
    ensures
        login_answer(password, Some(user)) == Err::<User, LoginError>(LoginError::UnknownUser),
{
}

/// Login refuses a wrong password and an unknown user with the same status
/// code and message.
pub proof fn lemma_refusals_alike()
    ensures
        login_status(LoginError::UnknownUser) == login_status(LoginError::InvalidPassword),
{
}

} // verus!
