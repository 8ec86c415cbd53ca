//! The crate name that a `Cargo.toml` manifest declares.

use vstd::prelude::*;
use vstd::string::*;
use crate::text::{chars_of, opt_string_view, strings_view};

verus! {

/// The `toml` crate's map type (`toml::Table` is `Map<String, Value>`), opaque here.
#[verifier::external_type_specification]
#[verifier::external_body]
#[verifier::reject_recursive_types(K)]
#[verifier::reject_recursive_types(V)]
pub struct ExTomlMap<K, V>(toml::map::Map<K, V>);

/// The `toml` crate's value type, opaque here.
#[verifier::external_type_specification]
#[verifier::external_body]
pub struct ExTomlValue(toml::Value);

/// The `toml` crate's parse error, opaque here.
#[verifier::external_type_specification]
#[verifier::external_body]
pub struct ExTomlError(toml::de::Error);

/// The table that the `toml` crate parses from a text, where the text is a
/// TOML document.
pub uninterp spec fn toml_parsed_table(text: Seq<char>) -> Option<toml::Table>;

/// The value that a TOML table holds under a key.
pub uninterp spec fn toml_table_entry(t: toml::Table, key: Seq<char>) -> Option<toml::Value>;

/// The table that a TOML value is, where it is a table.
pub uninterp spec fn toml_value_table(v: toml::Value) -> Option<toml::Table>;

/// The string that a TOML value is, where it is a string.
pub uninterp spec fn toml_value_string(v: toml::Value) -> Option<Seq<char>>;

/// Calls `<toml::Table as FromStr>::from_str` (that is, `toml::from_str`):
/// the table parsed from `text`, which depends on `text` alone.
#[verifier::external_body]
fn parse_toml_table(text: &str) -> (r: Result<toml::Table, toml::de::Error>)
    ensures
        match r {
            Ok(t) => toml_parsed_table(text@) == Some(t),
            Err(_) => toml_parsed_table(text@) is None,
        },
{
    text.parse::<toml::Table>()
}

/// Calls `toml::map::Map::get`: the value held under `key`.
#[verifier::external_body]
fn toml_table_get<'a>(t: &'a toml::Table, key: &str) -> (r: Option<&'a toml::Value>)
    ensures
        match r {
            Some(v) => toml_table_entry(*t, key@) == Some(*v),
            None => toml_table_entry(*t, key@) is None,
        },
{
    t.get(key)
}

/// Calls `toml::Value::as_table`: the value as a table, where it is one.
#[verifier::external_body]
fn toml_as_table(v: &toml::Value) -> (r: Option<&toml::Table>)
    ensures
        match r {
            Some(t) => toml_value_table(*v) == Some(*t),
            None => toml_value_table(*v) is None,
        },
{
    v.as_table()
}

/// The elements of a TOML value that is an array.
pub uninterp spec fn toml_value_array(v: toml::Value) -> Option<Seq<toml::Value>>;

/// Calls `toml::Value::as_array`: the value's elements, where it is an array.
#[verifier::external_body]
fn toml_as_array(v: &toml::Value) -> (r: Option<&Vec<toml::Value>>)
    ensures
        match r {
            Some(a) => toml_value_array(*v) == Some(a@),
            None => toml_value_array(*v) is None,
        },
{
    v.as_array()
}

/// Calls `toml::Value::as_str`: the value as a string, where it is one.
#[verifier::external_body]
fn toml_as_str(v: &toml::Value) -> (r: Option<&str>)
    ensures
        match r {
            Some(s) => toml_value_string(*v) == Some(s@),
            None => toml_value_string(*v) is None,
        },
{
    v.as_str()
}

/// `s` without the leading characters equal to `c`.
pub open spec fn strip_leading(s: Seq<char>, c: char) -> Seq<char>
    decreases s.len(),
{
    if s.len() > 0 && s[0] == c {
        strip_leading(s.drop_first(), c)
    } else {
        s
    }
}

proof fn lemma_strip_leading(s: Seq<char>, c: char, k: int)
    requires
        0 <= k <= s.len(),
        forall|j: int| 0 <= j < k ==> s[j] == c,
        k == s.len() || s[k] != c,
    ensures
        strip_leading(s, c) == s.skip(k),
    decreases k,
{
    if k == 0 {
        assert(s.skip(0) =~= s);
    } else {
        lemma_strip_leading(s.drop_first(), c, k - 1);
        assert(s.drop_first().skip(k - 1) =~= s.skip(k));
    }
}

/// The byte order mark that may open a UTF-8 file.
pub open spec fn byte_order_mark() -> char {
    '\u{feff}'
}

/// The package name that a parsed manifest declares: the string under `name`
/// in the table under `package`.
pub open spec fn table_package_name(t: toml::Table) -> Option<Seq<char>> {
    match toml_table_entry(t, "package"@) {
        Some(p) => match toml_value_table(p) {
            Some(pt) => match toml_table_entry(pt, "name"@) {
                Some(n) => toml_value_string(n),
                None => None,
            },
            None => None,
        },
        None => None,
    }
}

/// The crate name recorded for a manifest's text: none where the text (once
/// leading byte order marks are dropped) is not TOML; otherwise its declared
/// package name, or `unknown` where it declares none.
pub open spec fn manifest_crate_name(contents: Seq<char>) -> Option<Seq<char>> {
    match toml_parsed_table(strip_leading(contents, byte_order_mark())) {
        Some(t) => Some(
            match table_package_name(t) {
                Some(n) => n,
                None => "unknown"@,
            },
        ),
        None => None,
    }
}

/// The crate name that a parsed manifest declares, or `unknown`.
pub fn crate_name_from_table(t: &toml::Table) -> (r: String)
    ensures
        r@ == match table_package_name(*t) {
            Some(n) => n,
            None => "unknown"@,
        },
{
    let package = match toml_table_get(t, "package") {
        Some(p) => p,
        None => return String::from_str("unknown"),
    };
    let package = match toml_as_table(package) {
        Some(p) => p,
        None => return String::from_str("unknown"),
    };
    let name = match toml_table_get(package, "name") {
        Some(n) => n,
        None => return String::from_str("unknown"),
    };
    match toml_as_str(name) {
        Some(s) => s.to_owned(),
        None => String::from_str("unknown"),
    }
}

/// The table parsed from a manifest's text once leading byte order marks
/// are dropped.
pub open spec fn manifest_table(contents: Seq<char>) -> Option<toml::Table> {
    toml_parsed_table(strip_leading(contents, byte_order_mark()))
}

/// Parses a manifest's text (see [`manifest_table`]).
fn parse_manifest(contents: &str) -> (r: Option<toml::Table>)
    ensures
        r == manifest_table(contents@),
{
    let cs = chars_of(contents);
    let mut k: usize = 0;
    while k < cs.len() && cs[k] == '\u{feff}'
        invariant
            cs@ == contents@,
            k <= cs.len(),
            forall|j: int| 0 <= j < k ==> cs@[j] == byte_order_mark(),
        decreases cs.len() - k,
    {
        k = k + 1;
    }
    proof {
        lemma_strip_leading(contents@, byte_order_mark(), k as int);
    }
    let text = contents.substring_char(k, cs.len());
    assert(text@ =~= strip_leading(contents@, byte_order_mark()));
    match parse_toml_table(text) {
        Ok(t) => Some(t),
        Err(_) => None,
    }
}

/// Reads the crate name from the text of a `Cargo.toml` manifest (see
/// [`manifest_crate_name`]).
pub fn crate_name_from_manifest(contents: &str) -> (r: Option<String>)
    ensures
        opt_string_view(r) == manifest_crate_name(contents@),
{
    match parse_manifest(contents) {
        Some(t) => Some(crate_name_from_table(&t)),
        None => None,
    }
}

/// A manifest declares a package: it holds a `package` table.
pub open spec fn manifest_declares_package(contents: Seq<char>) -> bool {
    match manifest_table(contents) {
        Some(t) => match toml_table_entry(t, "package"@) {
            Some(p) => toml_value_table(p) is Some,
            None => false,
        },
        None => false,
    }
}

/// Whether a manifest's text declares a package (see [`manifest_declares_package`]).
pub fn declares_package(contents: &str) -> (r: bool)
    ensures
        r == manifest_declares_package(contents@),
{
    match parse_manifest(contents) {
        Some(t) => match toml_table_get(&t, "package") {
            Some(p) => toml_as_table(p).is_some(),
            None => false,
        },
        None => false,
    }
}

/// The strings among TOML values, in order.
pub open spec fn string_elements(vs: Seq<toml::Value>) -> Seq<Seq<char>>
    decreases vs.len(),
{
    if vs.len() == 0 {
        Seq::empty()
    } else {
        let rest = string_elements(vs.drop_last());
        match toml_value_string(vs.last()) {
            Some(s) => rest.push(s),
            None => rest,
        }
    }
}

/// The member paths that a manifest's `[workspace]` table lists under
/// `members` (its string elements, in order); none where there is no such list.
pub open spec fn manifest_workspace_members(contents: Seq<char>) -> Seq<Seq<char>> {
    match manifest_table(contents) {
        Some(t) => match toml_table_entry(t, "workspace"@) {
            Some(w) => match toml_value_table(w) {
                Some(wt) => match toml_table_entry(wt, "members"@) {
                    Some(m) => match toml_value_array(m) {
                        Some(vs) => string_elements(vs),
                        None => Seq::empty(),
                    },
                    None => Seq::empty(),
                },
                None => Seq::empty(),
            },
            None => Seq::empty(),
        },
        None => Seq::empty(),
    }
}

/// The string elements of a list of TOML values.
fn strings_of(vs: &Vec<toml::Value>) -> (r: Vec<String>)
    ensures
        strings_view(r@) == string_elements(vs@),
{
    let mut out: Vec<String> = Vec::new();
    let mut i: usize = 0;
    while i < vs.len()
        invariant
            i <= vs.len(),
            strings_view(out@) == string_elements(vs@.take(i as int)),
        decreases vs.len() - i,
    {
        assert(vs@.take(i + 1).drop_last() =~= vs@.take(i as int));
        assert(vs@.take(i + 1).last() == vs@[i as int]);
        let ghost before = strings_view(out@);
        match toml_as_str(&vs[i]) {
            Some(s) => {
                out.push(s.to_owned());
                assert(strings_view(out@) =~= before.push(s@));
            },
            None => {},
        }
        i = i + 1;
    }
    assert(vs@.take(vs.len() as int) =~= vs@);
    out
}

/// Reads the workspace member paths from the text of a `Cargo.toml`
/// manifest (see [`manifest_workspace_members`]).
pub fn workspace_members(contents: &str) -> (r: Vec<String>)
    ensures
        strings_view(r@) == manifest_workspace_members(contents@),
{
    let t = match parse_manifest(contents) {
        Some(t) => t,
        None => return Vec::new(),
    };
    let w = match toml_table_get(&t, "workspace") {
        Some(w) => w,
        None => return Vec::new(),
    };
    let wt = match toml_as_table(w) {
        Some(wt) => wt,
        None => return Vec::new(),
    };
    let m = match toml_table_get(wt, "members") {
        Some(m) => m,
        None => return Vec::new(),
    };
    match toml_as_array(m) {
        Some(vs) => strings_of(vs),
        None => Vec::new(),
    }
}

} // verus!
