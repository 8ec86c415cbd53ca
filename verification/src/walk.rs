//! Which directory entries a project walk enters and which files it analyzes.

use vstd::prelude::*;
use crate::text::{chars_of, chars_end_with, contains_char, ends_with, split_at_char, split_on, str_equal, strings_view};

verus! {

/// A hidden entry: its name starts with `.`.
pub open spec fn hidden_name(name: Seq<char>) -> bool {
    name.len() > 0 && name[0] == '.'
}

/// Directory names that a walk never enters: build and output directories.
pub open spec fn skipped_names() -> Seq<Seq<char>> {
    seq!["target"@, ".git"@, "node_modules"@, "dist"@, "build"@]
}

/// An entry that a walk skips, with everything below it.
pub open spec fn skipped_entry(name: Seq<char>) -> bool {
    hidden_name(name) || skipped_names().contains(name)
}

/// A file name whose extension is `rs`: it ends with `.rs` and has something before.
pub open spec fn rs_file_name(name: Seq<char>) -> bool {
    name.len() > 3 && ends_with(name, ".rs"@)
}

/// A file name that marks an editor or backup copy.
pub open spec fn backup_file_name(name: Seq<char>) -> bool {
    name.contains('~') || ends_with(name, ".bk"@) || ends_with(name, ".tmp"@)
}

/// A file that the analysis parses.
pub open spec fn analyzable_file_name(name: Seq<char>) -> bool {
    rs_file_name(name) && !backup_file_name(name)
}

/// A source file's path (relative to its crate's root, `/`-separated) that a
/// walk of the crate reaches and analyzes: none of its components is a
/// skipped entry, and its file name is analyzable.
pub open spec fn source_path(path: Seq<char>) -> bool {
    let comps = split_at_char(path, '/');
    &&& forall|i: int| 0 <= i < comps.len() ==> !skipped_entry(#[trigger] comps[i])
    &&& analyzable_file_name(comps.last())
}

/// Checks if a directory entry's name is hidden (starts with `.`).
pub fn is_hidden(name: &str) -> (r: bool)
    ensures
        r == hidden_name(name@),
{
    let cs = chars_of(name);
    cs.len() > 0 && cs[0] == '.'
}

/// Determines whether a directory entry met at `depth` below the walk's
/// root is skipped during traversal: hidden entries (`.git`, `.env`) and
/// common build/output directories (`target`, `dist`, `build`,
/// `node_modules`); the root itself (depth 0) is never skipped.
pub fn should_skip_entry(name: &str, depth: usize) -> (r: bool)
    ensures
        r == (depth > 0 && skipped_entry(name@)),
{
    if depth == 0 {
        return false;
    }
    if is_hidden(name) {
        return true;
    }
    let words: Vec<&str> = vec!["target", ".git", "node_modules", "dist", "build"];
    let ghost ws = words@.map_values(|w: &str| w@);
    assert(ws =~= skipped_names());
    let mut i: usize = 0;
    while i < words.len()
        invariant
            ws == words@.map_values(|w: &str| w@),
            ws == skipped_names(),
            depth > 0,
            i <= words.len(),
            forall|j: int| 0 <= j < i ==> ws[j] != name@,
        decreases words.len() - i,
    {
        if str_equal(words[i], name) {
            assert(ws[i as int] == name@);
            return true;
        }
        i = i + 1;
    }
    false
}

/// Determines whether a file found by the walk is analyzed: its extension is
/// `rs`, and its name holds no `~` and does not end with `.bk` or `.tmp`.
pub fn is_analyzable_file_name(name: &str) -> (r: bool)
    ensures
        r == analyzable_file_name(name@),
{
    let cs = chars_of(name);
    proof {
        reveal_strlit(".rs");
    }
    if !(cs.len() > 3 && chars_end_with(&cs, ".rs")) {
        return false;
    }
    !(contains_char(&cs, '~') || chars_end_with(&cs, ".bk") || chars_end_with(&cs, ".tmp"))
}

/// Determines whether a path (relative to its crate's root) is one that a
/// walk of the crate analyzes (see [`source_path`]).
pub fn is_source_path(path: &str) -> (r: bool)
    ensures
        r == source_path(path@),
{
    let comps = split_on(path, '/');
    let ghost cv = strings_view(comps@);
    proof {
        lemma_split_nonempty(path@, '/');
    }
    let mut i: usize = 0;
    while i < comps.len()
        invariant
            cv == strings_view(comps@),
            cv == split_at_char(path@, '/'),
            i <= comps.len(),
            forall|j: int| 0 <= j < i ==> !skipped_entry(#[trigger] cv[j]),
        decreases comps.len() - i,
    {
        if should_skip_entry(comps[i].as_str(), 1) {
            assert(cv[i as int] == comps@[i as int]@);
            return false;
        }
        assert(cv[i as int] == comps@[i as int]@);
        i = i + 1;
    }
    let last = comps.len() - 1;
    assert(cv.last() == comps@[last as int]@);
    is_analyzable_file_name(comps[last].as_str())
}

/// Splitting gives at least one piece.
pub proof fn lemma_split_nonempty(s: Seq<char>, sep: char)
    ensures
        split_at_char(s, sep).len() >= 1,
    decreases s.len(),
{
    if s.len() > 0 {
        lemma_split_nonempty(s.drop_last(), sep);
    }
}

} // verus!
