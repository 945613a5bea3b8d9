//! Connection URIs of a PostgreSQL database.
use vstd::prelude::*;

use super::Error;
use crate::text::starts_with;

verus! {

/// Whether `s` begins with `prefix`.
pub open spec fn has_prefix(s: Seq<char>, prefix: Seq<char>) -> bool {
    s.len() >= prefix.len() && s.take(prefix.len() as int) == prefix
}

/// Whether `s` is a PostgreSQL connection URI: it starts with `postgres://`
/// or `postgresql://`, the two schemes libpq's URI form takes.
pub open spec fn is_postgres_uri(s: Seq<char>) -> bool {
    has_prefix(s, "postgres://"@) || has_prefix(s, "postgresql://"@)
}

/// The connection URI itself, when it is a `postgres://` or
/// `postgresql://` URI.
pub fn parse_connection_uri(connection_uri: &str) -> (r: Result<&str, Error>)
    ensures
        is_postgres_uri(connection_uri@) ==> r == Ok::<&str, Error>(connection_uri),
        !is_postgres_uri(connection_uri@) ==> r == Err::<&str, Error>(
            Error::PostgresConnectionUri,
        ),
{
    if starts_with(connection_uri, "postgres://") || starts_with(connection_uri, "postgresql://") {
        Ok(connection_uri)
    } else {
        Err(Error::PostgresConnectionUri)
    }
}

} // verus!
