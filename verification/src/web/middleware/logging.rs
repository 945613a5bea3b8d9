//! The access log: one line per request, with the secret part of the path
//! hidden.
use vstd::prelude::*;

verus! {

/// An error a handler answered with, kept with the response for the
/// access log.
pub trait GenericError {}

impl GenericError for crate::web::auth::password::RegisterError {}

impl GenericError for crate::web::auth::password::LoginError {}

impl GenericError for crate::web::auth::openid::Error {}

impl GenericError for crate::web::auth::logout::Error {}

impl GenericError for crate::web::auth::extend::Error {}

impl GenericError for crate::web::endpoints::login::Error {}

impl GenericError for crate::web::endpoints::cargo_api::owners::Error {}

impl GenericError for crate::web::endpoints::cargo_api::publish::Error {}

impl GenericError for crate::web::endpoints::cargo_api::download::Error {}

impl GenericError for crate::web::endpoints::cargo_api::yank::Error {}

impl GenericError for crate::web::endpoints::web_api::crates::info::Error {}

impl GenericError for crate::web::endpoints::web_api::crates::members::Error {}

impl GenericError for crate::web::endpoints::web_api::crates::search::Error {}

impl GenericError for crate::web::endpoints::web_api::organisations::crud::Error {}

impl GenericError for crate::web::endpoints::web_api::organisations::info::Error {}

impl GenericError for crate::web::endpoints::web_api::organisations::list::Error {}

impl GenericError for crate::web::endpoints::web_api::organisations::members::Error {}

impl GenericError for crate::web::endpoints::web_api::search_users::Error {}

impl GenericError for crate::web::endpoints::web_api::users::search::Error {}

impl GenericError for crate::web::endpoints::web_api::sessions::delete::Error {}

impl GenericError for crate::web::endpoints::web_api::ssh_key::Error {}

impl GenericError for crate::web::models::CrateFetchError {}

/// The layer that logs every request.
pub struct LoggingMiddleware<S>(pub S);

/// The index just after the first `/` or line break at or after `from`,
/// with whether it was a `/`.
pub open spec fn slash_before_break(s: Seq<char>, from: int) -> Option<int>
    decreases s.len() - from,
{
    if from >= s.len() || from < 0 {
        None
    } else if s[from] == '/' {
        Some(from)
    } else if s[from] == '\n' {
        None
    } else {
        slash_before_break(s, from + 1)
    }
}

/// A path with the key of `/a/<key>/...` replaced by `[snip]`: the text
/// from the fourth character up to the next `/`, where no line break comes
/// before it.
pub open spec fn snipped_path(uri: Seq<char>) -> Seq<char> {
    if uri.len() >= 3 && uri.take(3) == "/a/"@ {
        match slash_before_break(uri, 3) {
            Some(j) => "/a/[snip]/"@ + uri.skip(j + 1),
            None => uri,
        }
    } else {
        uri
    }
}

/// Replaces the first match of `^/a/(.*?)/` in the path with
/// `/a/[snip]/`, with regex's `Regex::replace`. That pattern matches `/a/`
/// at the start and the shortest run of characters other than line breaks
/// up to a `/`.
#[verifier::external_body]
fn regex_snip(uri: &str) -> (r: String)
    ensures
        r@ == snipped_path(uri@),
{
    let re = regex::Regex::new(r"^/a/(.*?)/").unwrap();
    re.replace(uri, "/a/[snip]/").into_owned()
}

/// The path as the access log shows it: the key in `/a/<key>/...`, which
/// authenticates the request, hidden.
pub fn replace_sensitive_path(uri: &str) -> (r: String)
    ensures
        r@ == snipped_path(uri@),
{
    regex_snip(uri)
}

/// Whether a status code is a server error, logged as an error rather than
/// as information.
pub fn is_server_error(status: u16) -> (r: bool)
    ensures
        r == (500 <= status < 600),
{
    500 <= status && status < 600
}

} // verus!
