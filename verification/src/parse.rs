//! Parsing Rust source text with `syn`.

use vstd::prelude::*;
use crate::text::chars_of;

verus! {

/// `syn`'s syntax tree of a Rust source file, opaque here.
#[verifier::external_type_specification]
#[verifier::external_body]
pub struct ExSynFile(syn::File);

/// `syn`'s parse error, opaque here.
#[verifier::external_type_specification]
#[verifier::external_body]
pub struct ExSynError(syn::Error);

/// Whether `syn` parses `code` as a Rust source file.
pub uninterp spec fn rust_parses(code: Seq<char>) -> bool;

/// The characters with the Unicode `White_Space` property (what
/// `char::is_whitespace` reports): U+0009 to U+000D, U+0020, U+0085, U+00A0,
/// U+1680, U+2000 to U+200A, U+2028, U+2029, U+202F, U+205F and U+3000.
pub open spec fn white_space(c: char) -> bool {
    ||| '\u{9}' <= c <= '\u{d}'
    ||| c == ' '
    ||| c == '\u{85}'
    ||| c == '\u{a0}'
    ||| c == '\u{1680}'
    ||| '\u{2000}' <= c <= '\u{200a}'
    ||| c == '\u{2028}'
    ||| c == '\u{2029}'
    ||| c == '\u{202f}'
    ||| c == '\u{205f}'
    ||| c == '\u{3000}'
}

/// A text made of white space alone (the empty text among them).
pub open spec fn is_blank(s: Seq<char>) -> bool {
    forall|i: int| 0 <= i < s.len() ==> white_space(#[trigger] s[i])
}

/// Calls `syn::parse_file`: the syntax tree where `code` is a Rust source
/// file, the parse error where it is not. Whether it parses depends on `code`
/// alone; the tree itself is not named, as its spans also depend on the texts
/// that were parsed before in the same thread.
#[verifier::external_body]
fn parse_rust(code: &str) -> (r: Result<syn::File, syn::Error>)
    ensures
        r is Ok <==> rust_parses(code@),
{
    syn::parse_file(code)
}

/// Whether `c` is white space (see [`white_space`]).
pub fn is_white_space(c: char) -> (r: bool)
    ensures
        r == white_space(c),
{
    ('\u{9}' <= c && c <= '\u{d}') || c == ' ' || c == '\u{85}' || c == '\u{a0}' || c == '\u{1680}'
        || ('\u{2000}' <= c && c <= '\u{200a}') || c == '\u{2028}' || c == '\u{2029}' || c
        == '\u{202f}' || c == '\u{205f}' || c == '\u{3000}'
}

/// Whether a source text is blank: white space alone.
pub fn is_blank_text(code: &str) -> (r: bool)
    ensures
        r == is_blank(code@),
{
    let cs = chars_of(code);
    let mut i: usize = 0;
    while i < cs.len()
        invariant
            cs@ == code@,
            i <= cs.len(),
            forall|j: int| 0 <= j < i ==> white_space(#[trigger] code@[j]),
        decreases cs.len() - i,
    {
        if !is_white_space(cs[i]) {
            return false;
        }
        i = i + 1;
    }
    true
}

/// Parses the text of a source file: `None` for a blank text (it holds no
/// items); otherwise the syntax tree, or the parse error where the text is
/// not Rust.
pub fn parse_source_text(code: &str) -> (r: Option<Result<syn::File, syn::Error>>)
    ensures
        r is None <==> is_blank(code@),
        r matches Some(p) ==> (p is Ok <==> rust_parses(code@)),
{
    if is_blank_text(code) {
        return None;
    }
    Some(parse_rust(code))
}

} // verus!
