//! JSON responses wrapped under a key named after their content: a single
//! value under the type's key, a list under the plural of it.

use vstd::prelude::*;

verus! {

/// The English plural of a word.
pub uninterp spec fn plural_of(word: Seq<char>) -> Seq<char>;

/// Relies on `inflector::string::pluralize::to_plural`: the plural of a word,
/// which depends on the word alone.
#[verifier::external_body]
fn plural(word: &str) -> (r: String)
    ensures
        r@ == plural_of(word@),
{
    inflector::string::pluralize::to_plural(word)
}

/// A type whose JSON responses are wrapped under a key: `{"user": ...}`.
pub trait ResponseKey {
    fn response_key() -> &'static str;
}

/// A value to be answered wrapped under its response key.
pub struct WrappedJson<T>(pub T);

/// The key that a response is wrapped under: the type's key for one value,
/// its plural for a list.
pub fn wrapping_key(key: &str, is_list: bool) -> (r: String)
    ensures
        r@ == (if is_list {
            plural_of(key@)
        } else {
            key@
        }),
{
    if is_list {
        plural(key)
    } else {
        key.to_owned()
    }
}

} // verus!
