//! Where a request is sent: the upstream base, then the caller's path and
//! query exactly as they came.

use vstd::prelude::*;

verus! {

/// A text without the slashes at its end.
pub open spec fn without_trailing_slashes(s: Seq<char>) -> Seq<char>
    decreases s.len(),
{
    if s.len() > 0 && s.last() == '/' {
        without_trailing_slashes(s.drop_last())
    } else {
        s
    }
}

/// The upstream URL of a request: the base without trailing slashes, the
/// path, and the query behind a question mark where there is one.
pub open spec fn target(base: Seq<char>, path: Seq<char>, query: Option<Seq<char>>) -> Seq<char> {
    match query {
        Some(q) => without_trailing_slashes(base) + path + "?"@ + q,
        None => without_trailing_slashes(base) + path,
    }
}

/// `str::trim_end_matches` with the pattern `'/'`: the slice that is left
/// when the slash at the end has been taken off again and again.
#[verifier::external_body]
fn trim_trailing_slashes(base: &str) -> (trimmed: &str)
    ensures
        trimmed@ == without_trailing_slashes(base@),
{
    base.trim_end_matches('/')
}

/// The upstream URL for a caller's path and query. Neither is encoded anew
/// or normalised.
pub fn upstream_url(base: &str, path: &str, query: Option<&str>) -> (url: String)
    ensures
        url@ == target(
            base@,
            path@,
            match query {
                Some(q) => Some(q@),
                None => None,
            },
        ),
{
    let mut url = trim_trailing_slashes(base).to_owned();
    url.push_str(path);
    match query {
        Some(q) => {
            url.push_str("?");
            url.push_str(q);
        },
        None => {},
    }
    url
}

} // verus!
