//! Connection URIs of an SQLite database.
use vstd::prelude::*;

use super::Error;
use crate::text::{chars_of, starts_with, string_of};

verus! {

/// `s` with every leading repetition of `prefix` removed, as
/// `str::trim_start_matches` removes them.
pub open spec fn trim_start_all(s: Seq<char>, prefix: Seq<char>) -> Seq<char>
    decreases s.len(),
{
    if prefix.len() > 0 && prefix.len() <= s.len() && s.take(prefix.len() as int) == prefix {
        trim_start_all(s.skip(prefix.len() as int), prefix)
    } else {
        s
    }
}

/// The path of the database an `sqlite://` URI names: the URI with its
/// leading `sqlite://` removed (every repetition of it).
pub fn parse_connection_uri(connection_uri: &str) -> (r: Result<String, Error>)
    ensures
        connection_uri@.len() >= 9 && connection_uri@.take(9) == "sqlite://"@ ==> r == Ok::<
            String,
            Error,
        >(r->Ok_0) && r->Ok_0@ == trim_start_all(connection_uri@, "sqlite://"@),
        !(connection_uri@.len() >= 9 && connection_uri@.take(9) == "sqlite://"@) ==> r
            == Err::<String, Error>(Error::SqliteConnectionUri),
{
    proof {
        reveal_strlit("sqlite://");
    }
    if starts_with(connection_uri, "sqlite://") {
        let chars = chars_of(connection_uri);
        let prefix = chars_of("sqlite://");
        let mut start: usize = 0;
        assert(connection_uri@.skip(0) =~= connection_uri@);
        while chars.len() - start >= 9 && chars_match(&chars, start, &prefix)
            invariant
                chars@ == connection_uri@,
                prefix@ == "sqlite://"@,
                prefix@.len() == 9,
                start <= chars@.len(),
                trim_start_all(connection_uri@, "sqlite://"@) == trim_start_all(
                    connection_uri@.skip(start as int),
                    "sqlite://"@,
                ),
            decreases chars@.len() - start,
        {
            assert(connection_uri@.skip(start as int).skip(9) =~= connection_uri@.skip(start + 9));
            assert(connection_uri@.skip(start as int).take(9) =~= chars@.subrange(
                start as int,
                start + 9,
            ));
            start = start + 9;
        }
        proof {
            if start + 9 <= chars@.len() {
                assert(connection_uri@.skip(start as int).take(9) =~= chars@.subrange(
                    start as int,
                    start + 9,
                ));
            }
        }
        assert(chars@.subrange(start as int, chars@.len() as int) =~= connection_uri@.skip(
            start as int,
        ));
        Ok(string_of(&chars, start, chars.len()))
    } else {
        Err(Error::SqliteConnectionUri)
    }
}

/// Whether `chars[start..start + prefix.len()]` is `prefix`.
fn chars_match(chars: &Vec<char>, start: usize, prefix: &Vec<char>) -> (r: bool)
    requires
        start + prefix@.len() <= chars@.len(),
    ensures
        r == (chars@.subrange(start as int, start + prefix@.len()) == prefix@),
{
    let mut i: usize = 0;
    while i < prefix.len()
        invariant
            start + prefix@.len() <= chars.len(),
            i <= prefix@.len(),
            forall|j: int| 0 <= j < i ==> chars@[start + j] == prefix@[j],
        decreases prefix@.len() - i,
    {
        if chars[start + i] != prefix[i] {
            assert(chars@.subrange(start as int, start + prefix@.len())[i as int] != prefix@[i as int]);
            return false;
        }
        i = i + 1;
    }
    assert(chars@.subrange(start as int, start + prefix@.len()) =~= prefix@);
    true
}

} // verus!
