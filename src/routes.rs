//! Caching of static site files, by the directory they are served from.

use vstd::prelude::*;

verus! {

/// Whether `pat` occurs in `s` as a contiguous run of characters.
pub open spec fn has_substring(s: Seq<char>, pat: Seq<char>) -> bool {
    exists|i: int| 0 <= i && i + pat.len() <= s.len() && #[trigger] s.subrange(i, i + pat.len()) == pat
}

/// Relies on `str::contains`: whether the pattern matches a sub-slice of the
/// string.
#[verifier::external_body]
fn text_contains(s: &str, pat: &str) -> (r: bool)
    ensures
        r == has_substring(s@, pat@),
{
    s.contains(pat)
}

/// The `Cache-Control` value of a file served at `path`: a month for
/// `/_astro/` assets, else a year for `/_static/` ones, else none.
pub open spec fn cache_control_spec(path: Seq<char>) -> Option<Seq<char>> {
    if has_substring(path, "/_astro/"@) {
        Some("public, max-age=2628000"@)
    } else if has_substring(path, "/_static/"@) {
        Some("public, max-age=31536000"@)
    } else {
        None
    }
}

/// The `Cache-Control` value to set on a file served at `path`, if any.
pub fn cache_control_for(path: &str) -> (r: Option<&'static str>)
    ensures
        match r {
            Some(v) => cache_control_spec(path@) == Some(v@),
            None => cache_control_spec(path@) is None,
        },
{
    if text_contains(path, "/_astro/") {
        Some("public, max-age=2628000")
    } else if text_contains(path, "/_static/") {
        Some("public, max-age=31536000")
    } else {
        None
    }
}

} // verus!
