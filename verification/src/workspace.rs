//! The crates of a project: a workspace's members, and the root package.

use vstd::prelude::*;
use vstd::string::*;
use crate::text::{chars_end_with, chars_of, ends_with, str_equal, strings_view, clone_strings};

verus! {

/// `s` without its trailing characters equal to `c`.
pub open spec fn strip_trailing(s: Seq<char>, c: char) -> Seq<char>
    decreases s.len(),
{
    if s.len() > 0 && s.last() == c {
        strip_trailing(s.drop_last(), c)
    } else {
        s
    }
}

proof fn lemma_strip_trailing(s: Seq<char>, c: char, k: int)
    requires
        0 <= k <= s.len(),
        forall|j: int| k <= j < s.len() ==> s[j] == c,
        k == 0 || s[k - 1] != c,
    ensures
        strip_trailing(s, c) == s.take(k),
    decreases s.len() - k,
{
    if k == s.len() {
        assert(s.take(k) =~= s);
    } else {
        lemma_strip_trailing(s.drop_last(), c, k);
        assert(s.drop_last().take(k) =~= s.take(k));
    }
}

/// The root of a workspace member as a path from the project root: the
/// member's path without a leading `./` and without trailing `/`; `.` where
/// nothing is left.
pub open spec fn normalized_root(p: Seq<char>) -> Seq<char> {
    let q = if p.len() >= 2 && p[0] == '.' && p[1] == '/' {
        p.skip(2)
    } else {
        p
    };
    let r = strip_trailing(q, '/');
    if r.len() == 0 {
        "."@
    } else {
        r
    }
}

/// Normalizes a workspace member's path (see [`normalized_root`]).
pub fn member_root(pattern: &str) -> (r: String)
    ensures
        r@ == normalized_root(pattern@),
{
    let cs = chars_of(pattern);
    let start: usize = if cs.len() >= 2 && cs[0] == '.' && cs[1] == '/' { 2 } else { 0 };
    let ghost q = if pattern@.len() >= 2 && pattern@[0] == '.' && pattern@[1] == '/' {
        pattern@.skip(2)
    } else {
        pattern@
    };
    assert(q =~= pattern@.subrange(start as int, pattern@.len() as int));
    let mut end: usize = cs.len();
    while end > start && cs[end - 1] == '/'
        invariant
            cs@ == pattern@,
            start <= end <= cs.len(),
            forall|j: int| end <= j < cs.len() ==> cs@[j] == '/',
        decreases end,
    {
        end = end - 1;
    }
    proof {
        lemma_strip_trailing(q, '/', end - start);
        assert(q.take(end - start) =~= pattern@.subrange(start as int, end as int));
    }
    if end == start {
        String::from_str(".")
    } else {
        String::from_str(pattern.substring_char(start, end))
    }
}

/// For a member path that ends with `/*`, the directory whose subdirectories
/// it stands for.
pub open spec fn glob_dir(root: Seq<char>) -> Option<Seq<char>> {
    if ends_with(root, "/*"@) {
        Some(root.take(root.len() - 2))
    } else {
        None
    }
}

/// The directory that a member path ending with `/*` stands for the
/// subdirectories of (see [`glob_dir`]).
pub fn glob_parent(root: &str) -> (r: Option<String>)
    ensures
        opt_view(r) == glob_dir(root@),
{
    let cs = chars_of(root);
    proof {
        reveal_strlit("/*");
    }
    if chars_end_with(&cs, "/*") {
        let p = String::from_str(root.substring_char(0, cs.len() - 2));
        assert(root@.subrange(0, root@.len() - 2) =~= root@.take(root@.len() - 2));
        Some(p)
    } else {
        None
    }
}

/// Spec view of an optional string.
pub open spec fn opt_view(o: Option<String>) -> Option<Seq<char>> {
    match o {
        Some(s) => Some(s@),
        None => None,
    }
}

/// The roots of a project's crates: the workspace members, in order, then
/// the project root `.` where there are no members or the root manifest also
/// declares a package.
pub open spec fn crate_roots(members: Seq<Seq<char>>, root_is_package: bool) -> Seq<Seq<char>> {
    if members.len() == 0 || root_is_package {
        members.push("."@)
    } else {
        members
    }
}

/// Lists the roots of a project's crates (see [`crate_roots`]).
pub fn subproject_roots(members: &Vec<String>, root_is_package: bool) -> (r: Vec<String>)
    ensures
        strings_view(r@) == crate_roots(strings_view(members@), root_is_package),
{
    let mut r = clone_strings(members);
    if members.len() == 0 || root_is_package {
        let ghost before = strings_view(r@);
        r.push(String::from_str("."));
        assert(strings_view(r@) =~= before.push("."@));
    }
    r
}

/// A directory met while walking the crate rooted at `current` that is the
/// root of another crate of the project, and so is left to that crate.
pub open spec fn other_crate_root(rel: Seq<char>, current: Seq<char>, roots: Seq<Seq<char>>) -> bool {
    rel != current && roots.contains(rel)
}

/// Whether the directory at `rel` (from the project root) is the root of a
/// crate other than `current` (see [`other_crate_root`]).
pub fn is_other_crate_root(rel: &str, current: &str, roots: &Vec<String>) -> (r: bool)
    ensures
        r == other_crate_root(rel@, current@, strings_view(roots@)),
{
    if str_equal(rel, current) {
        return false;
    }
    let mut i: usize = 0;
    while i < roots.len()
        invariant
            rel@ != current@,
            i <= roots.len(),
            forall|j: int| 0 <= j < i ==> roots@[j]@ != rel@,
        decreases roots.len() - i,
    {
        if str_equal(roots[i].as_str(), rel) {
            assert(strings_view(roots@)[i as int] == roots@[i as int]@);
            assert(strings_view(roots@).contains(rel@));
            return true;
        }
        i = i + 1;
    }
    assert forall|j: int| 0 <= j < roots@.len() implies strings_view(roots@)[j] != rel@ by {}
    false
}

} // verus!
