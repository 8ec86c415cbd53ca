//! Which called names are recorded in a function's call list.

use vstd::prelude::*;
use crate::text::{all_ascii_lowercase, has_path_separator, chars_of, str_equal, is_all_ascii_lowercase, contains_path_separator};

verus! {

/// The names that are never recorded as calls: conversions, accessors,
/// iterator adapters, collection methods, constructors, and logging functions
/// and macros.
pub open spec fn noise_words() -> Seq<Seq<char>> {
    seq![
        "clone"@, "to_string"@, "into"@, "from"@, "as_ref"@, "deref"@, "borrow"@, "as_mut"@,
        "map"@, "map_err"@, "and_then"@, "or_else"@, "unwrap"@, "expect"@, "ok"@, "err"@,
        "is_ok"@, "is_err"@, "is_some"@, "is_none"@, "unwrap_or"@, "unwrap_or_else"@,
        "iter"@, "into_iter"@, "next"@, "collect"@, "filter"@, "find"@, "for_each"@,
        "enumerate"@, "zip"@, "take"@, "skip"@, "inspect"@,
        "push"@, "pop"@, "insert"@, "remove"@, "get"@, "contains"@, "len"@, "is_empty"@,
        "clear"@, "extend"@, "keys"@, "values"@,
        "new"@, "default"@, "Some"@, "Ok"@, "Err"@,
        "info"@, "warn"@, "error"@, "debug"@, "trace"@,
        "serialize"@, "deserialize"@,
        "join"@, "starts_with"@, "ends_with"@, "contains"@, "file_name"@, "extension"@,
        "info!"@, "warn!"@, "error!"@, "debug!"@, "trace!"@
    ]
}

/// A call name is noise when it is, as a whole, one of the noise words.
pub open spec fn is_noise(name: Seq<char>) -> bool {
    noise_words().contains(name)
}


/// Whether `c` has the Unicode `Alphabetic` property, as `char::is_alphabetic` reports it.
pub uninterp spec fn unicode_alphabetic(c: char) -> bool;

/// A call name is meaningful when it is not empty, not noise, not a one- or
/// two-byte name of ASCII lowercase letters, and it starts with a letter or
/// `_` or holds a `::` path separator.
pub open spec fn is_meaningful(name: Seq<char>) -> bool {
    &&& name.len() > 0
    &&& !is_noise(name)
    &&& !(vstd::utf8::encode_utf8(name).len() <= 2 && all_ascii_lowercase(name))
    &&& (unicode_alphabetic(name[0]) || name[0] == '_' || has_path_separator(name))
}

/// Calls `char::is_alphabetic`; the result is the Unicode `Alphabetic`
/// property of `c`, named `unicode_alphabetic`, whose tables are not written out here.
#[verifier::external_body]
fn char_is_alphabetic(c: char) -> (r: bool)
    ensures
        r == unicode_alphabetic(c),
{
    c.is_alphabetic()
}

/// Determines whether a called name is noise (`clone`, `unwrap`, iterator
/// adapters, logging macros and the like), to be left out of call graphs.
pub fn is_noise_call(name: &str) -> (r: bool)
    ensures
        r == is_noise(name@),
{
    let words: Vec<&str> = vec![
        "clone", "to_string", "into", "from", "as_ref", "deref", "borrow", "as_mut",
        "map", "map_err", "and_then", "or_else", "unwrap", "expect", "ok", "err",
        "is_ok", "is_err", "is_some", "is_none", "unwrap_or", "unwrap_or_else",
        "iter", "into_iter", "next", "collect", "filter", "find", "for_each",
        "enumerate", "zip", "take", "skip", "inspect",
        "push", "pop", "insert", "remove", "get", "contains", "len", "is_empty",
        "clear", "extend", "keys", "values",
        "new", "default", "Some", "Ok", "Err",
        "info", "warn", "error", "debug", "trace",
        "serialize", "deserialize",
        "join", "starts_with", "ends_with", "contains", "file_name", "extension",
        "info!", "warn!", "error!", "debug!", "trace!",
    ];
    let ghost ws = words@.map_values(|w: &str| w@);
    assert(ws =~= noise_words());
    let mut i: usize = 0;
    while i < words.len()
        invariant
            ws == words@.map_values(|w: &str| w@),
            ws == noise_words(),
            i <= words.len(),
            forall|j: int| 0 <= j < i ==> ws[j] != name@,
        decreases words.len() - i,
    {
        if str_equal(words[i], name) {
            assert(ws[i as int] == name@);
            return true;
        }
        i = i + 1;
    }
    false
}

/// Checks whether a called name belongs in the output: see [`is_meaningful`].
pub fn is_meaningful_call(name: &str) -> (r: bool)
    ensures
        r == is_meaningful(name@),
{
    if name.is_empty() {
        return false;
    }
    if is_noise_call(name) {
        return false;
    }
    let chars = chars_of(name);
    if is_all_ascii_lowercase(&chars) {
        proof {
            assert(vstd::utf8::is_ascii_chars(name@));
            vstd::utf8::is_ascii_chars_encode_utf8(name@);
        }
        if chars.len() <= 2 {
            return false;
        }
    }
    let first: char = chars[0];
    char_is_alphabetic(first) || first == '_' || contains_path_separator(&chars)
}

} // verus!
