//! Character-level helpers on strings, each with its specification.

use vstd::prelude::*;
use vstd::string::*;

verus! {

/// Spec view of a sequence of strings.
pub open spec fn strings_view(v: Seq<String>) -> Seq<Seq<char>> {
    v.map_values(|s: String| s@)
}

/// Spec view of an optional string.
pub open spec fn opt_string_view(o: Option<String>) -> Option<Seq<char>> {
    match o {
        Some(s) => Some(s@),
        None => None,
    }
}

/// Position `i` of `s` starts a `::` path separator.
pub open spec fn separator_at(s: Seq<char>, i: int) -> bool {
    0 <= i && i + 1 < s.len() && s[i] == ':' && s[i + 1] == ':'
}

/// `s` holds two consecutive colons somewhere.
pub open spec fn has_path_separator(s: Seq<char>) -> bool {
    exists|i: int| #[trigger] separator_at(s, i)
}

/// Every character of `s` is an ASCII lowercase letter.
pub open spec fn all_ascii_lowercase(s: Seq<char>) -> bool {
    forall|i: int| 0 <= i < s.len() ==> 'a' <= #[trigger] s[i] <= 'z'
}

/// `s` ends with `suffix`.
pub open spec fn ends_with(s: Seq<char>, suffix: Seq<char>) -> bool {
    s.len() >= suffix.len() && s.subrange(s.len() - suffix.len(), s.len() as int) == suffix
}

/// The characters of `s`, in order.
pub fn chars_of(s: &str) -> (v: Vec<char>)
    ensures
        v@ == s@,
{
    let mut v: Vec<char> = Vec::new();
    let n: usize = s.unicode_len();
    let mut i: usize = 0;
    while i < n
        invariant
            n == s@.len(),
            i <= n,
            v@ == s@.take(i as int),
        decreases n - i,
    {
        let c: char = s.get_char(i);
        v.push(c);
        i = i + 1;
        assert(v@ =~= s@.take(i as int));
    }
    assert(s@.take(n as int) =~= s@);
    v
}

/// Whether `a` and `b` hold the same characters.
pub fn str_equal(a: &str, b: &str) -> (r: bool)
    ensures
        r == (a@ == b@),
{
    let x = chars_of(a);
    let y = chars_of(b);
    if x.len() != y.len() {
        return false;
    }
    let mut i: usize = 0;
    while i < x.len()
        invariant
            x@ == a@,
            y@ == b@,
            x.len() == y.len(),
            i <= x.len(),
            forall|j: int| 0 <= j < i ==> x@[j] == y@[j],
        decreases x.len() - i,
    {
        if x[i] != y[i] {
            return false;
        }
        i = i + 1;
    }
    assert(x@ =~= y@);
    true
}

/// Whether two consecutive colons occur in `s`.
pub fn contains_path_separator(s: &Vec<char>) -> (r: bool)
    ensures
        r == has_path_separator(s@),
{
    let mut i: usize = 0;
    while i < s.len()
        invariant
            i <= s.len(),
            forall|j: int| 0 <= j < i ==> !#[trigger] separator_at(s@, j),
        decreases s.len() - i,
    {
        if i + 1 < s.len() && s[i] == ':' && s[i + 1] == ':' {
            assert(separator_at(s@, i as int));
            return true;
        }
        i = i + 1;
    }
    assert forall|j: int| !#[trigger] separator_at(s@, j) by {
        if 0 <= j < i {
        }
    }
    false
}

/// Whether every character of `s` is an ASCII lowercase letter.
pub fn is_all_ascii_lowercase(s: &Vec<char>) -> (r: bool)
    ensures
        r == all_ascii_lowercase(s@),
{
    let mut i: usize = 0;
    while i < s.len()
        invariant
            i <= s.len(),
            forall|j: int| 0 <= j < i ==> 'a' <= #[trigger] s@[j] <= 'z',
        decreases s.len() - i,
    {
        if !('a' <= s[i] && s[i] <= 'z') {
            return false;
        }
        i = i + 1;
    }
    true
}

/// Whether `s` ends with the characters of `suffix`.
pub fn chars_end_with(s: &Vec<char>, suffix: &str) -> (r: bool)
    ensures
        r == ends_with(s@, suffix@),
{
    let t = chars_of(suffix);
    if t.len() > s.len() {
        return false;
    }
    let off: usize = s.len() - t.len();
    let mut i: usize = 0;
    while i < t.len()
        invariant
            t@ == suffix@,
            off == s.len() - t.len(),
            i <= t.len(),
            forall|j: int| 0 <= j < i ==> s@[off + j] == t@[j],
        decreases t.len() - i,
    {
        if s[off + i] != t[i] {
            assert(s@.subrange(off as int, s.len() as int)[i as int] != t@[i as int]);
            return false;
        }
        i = i + 1;
    }
    assert(s@.subrange(off as int, s.len() as int) =~= t@);
    true
}

/// Whether the character `c` occurs in `s`.
pub fn contains_char(s: &Vec<char>, c: char) -> (r: bool)
    ensures
        r == s@.contains(c),
{
    let mut i: usize = 0;
    while i < s.len()
        invariant
            i <= s.len(),
            forall|j: int| 0 <= j < i ==> s@[j] != c,
        decreases s.len() - i,
    {
        if s[i] == c {
            return true;
        }
        i = i + 1;
    }
    false
}

/// The parts joined, with `sep` between consecutive parts.
pub open spec fn join(parts: Seq<Seq<char>>, sep: Seq<char>) -> Seq<char>
    decreases parts.len(),
{
    if parts.len() == 0 {
        Seq::empty()
    } else if parts.len() == 1 {
        parts[0]
    } else {
        join(parts.drop_last(), sep) + sep + parts.last()
    }
}

/// Joins the strings of `parts`, with `sep` between consecutive ones.
pub fn join_strings(parts: &Vec<String>, sep: &str) -> (r: String)
    ensures
        r@ == join(strings_view(parts@), sep@),
{
    let ghost views = strings_view(parts@);
    let mut res = String::new();
    let mut i: usize = 0;
    while i < parts.len()
        invariant
            views == strings_view(parts@),
            i <= parts.len(),
            res@ == join(views.take(i as int), sep@),
        decreases parts.len() - i,
    {
        if i > 0 {
            res.append(sep);
        }
        res.append(parts[i].as_str());
        assert(views.take(i + 1).drop_last() =~= views.take(i as int));
        i = i + 1;
    }
    assert(views.take(parts.len() as int) =~= views);
    res
}

/// A copy of a list of strings.
pub fn clone_strings(v: &Vec<String>) -> (r: Vec<String>)
    ensures
        strings_view(r@) == strings_view(v@),
{
    let mut out: Vec<String> = Vec::new();
    let mut i: usize = 0;
    while i < v.len()
        invariant
            i <= v.len(),
            strings_view(out@) == strings_view(v@.take(i as int)),
        decreases v.len() - i,
    {
        let c = v[i].clone();
        let ghost before = strings_view(out@);
        out.push(c);
        assert(strings_view(out@) =~= before.push(v@[i as int]@));
        assert(strings_view(v@.take(i + 1)) =~= strings_view(v@.take(i as int)).push(v@[i as int]@));
        i = i + 1;
    }
    assert(v@.take(v.len() as int) =~= v@);
    out
}

/// The pieces of `s` between occurrences of `sep` (one piece where `sep`
/// does not occur; empty pieces kept).
pub open spec fn split_at_char(s: Seq<char>, sep: char) -> Seq<Seq<char>>
    decreases s.len(),
{
    if s.len() == 0 {
        seq![Seq::empty()]
    } else {
        let r = split_at_char(s.drop_last(), sep);
        if s.last() == sep {
            r.push(Seq::empty())
        } else {
            r.update(r.len() - 1, r.last().push(s.last()))
        }
    }
}

/// Splits `s` at every `sep` (see [`split_at_char`]).
pub fn split_on(s: &str, sep: char) -> (r: Vec<String>)
    ensures
        strings_view(r@) == split_at_char(s@, sep),
{
    let cs = chars_of(s);
    let n: usize = cs.len();
    let mut pieces: Vec<String> = Vec::new();
    let mut start: usize = 0;
    let mut i: usize = 0;
    assert(s@.take(0) =~= Seq::<char>::empty());
    assert(s@.subrange(0, 0) =~= Seq::<char>::empty());
    assert(split_at_char(s@.take(0), sep) =~= strings_view(pieces@).push(s@.subrange(0, 0)));
    while i < n
        invariant
            cs@ == s@,
            n == cs.len(),
            start <= i <= n,
            split_at_char(s@.take(i as int), sep) == strings_view(pieces@).push(
                s@.subrange(start as int, i as int),
            ),
        decreases n - i,
    {
        let ghost before = strings_view(pieces@);
        assert(s@.take(i + 1).drop_last() =~= s@.take(i as int));
        assert(s@.take(i + 1).last() == s@[i as int]);
        if cs[i] == sep {
            let piece = s.substring_char(start, i);
            pieces.push(String::from_str(piece));
            assert(strings_view(pieces@) =~= before.push(s@.subrange(start as int, i as int)));
            start = i + 1;
            assert(s@.subrange(start as int, start as int) =~= Seq::<char>::empty());
            assert(split_at_char(s@.take(i + 1), sep) =~= strings_view(pieces@).push(
                s@.subrange(start as int, i + 1),
            ));
        } else {
            assert(s@.subrange(start as int, i + 1) =~= s@.subrange(start as int, i as int).push(s@[i as int]));
            assert(split_at_char(s@.take(i + 1), sep) =~= before.push(s@.subrange(start as int, i + 1)));
        }
        i = i + 1;
    }
    let ghost before = strings_view(pieces@);
    let last = s.substring_char(start, n);
    pieces.push(String::from_str(last));
    assert(s@.take(n as int) =~= s@);
    assert(strings_view(pieces@) =~= before.push(s@.subrange(start as int, n as int)));
    pieces
}

} // verus!
