//! What is recorded of each function: its signature text, documentation,
//! attributes and meaningful calls.

use vstd::prelude::*;
use vstd::string::*;
use crate::model::{RawAttr, RawCall, RawFn, RawParam};
use crate::text::{join, join_strings, chars_of, str_equal, strings_view, opt_string_view, clone_strings};
use crate::calls::{is_meaningful, is_meaningful_call};
use crate::data::{FunctionDecl, FunctionDeclView};

verus! {

// ---------------------------------------------------------------- attributes

/// A documentation attribute: its path is exactly `doc`.
pub open spec fn is_doc_attribute(a: RawAttr) -> bool {
    !a.leading_colon && a.segments@.len() == 1 && a.segments@[0]@ == "doc"@
}

/// A documentation line without the space that follows `///`.
pub open spec fn strip_doc_prefix(line: Seq<char>) -> Seq<char> {
    if line.len() > 0 && line[0] == ' ' {
        line.drop_first()
    } else {
        line
    }
}

/// The lines carried by documentation attributes, in order, each without the
/// space that follows `///`.
pub open spec fn doc_lines(attrs: Seq<RawAttr>) -> Seq<Seq<char>>
    decreases attrs.len(),
{
    if attrs.len() == 0 {
        Seq::empty()
    } else {
        let rest = doc_lines(attrs.drop_last());
        let a = attrs.last();
        if is_doc_attribute(a) && a.doc_text is Some {
            rest.push(strip_doc_prefix(a.doc_text->0@))
        } else {
            rest
        }
    }
}

/// The documentation of an item: its documentation lines joined by newlines,
/// or none where it has no documentation line.
pub open spec fn docstring_text(attrs: Seq<RawAttr>) -> Option<Seq<char>> {
    let lines = doc_lines(attrs);
    if lines.len() == 0 {
        None
    } else {
        Some(join(lines, "\n"@))
    }
}

/// The recorded form of an attribute: `#[name(args)]` or `#[name = value]`
/// or `#[name]`, `name` being the last segment of its path and the arguments
/// as written.
pub open spec fn attribute_mark(a: RawAttr) -> Seq<char> {
    "#["@ + a.segments@.last()@ + (match a.list_args {
        Some(x) => x@,
        None => Seq::empty(),
    }) + (match a.value {
        Some(v) => " = "@ + v@,
        None => Seq::empty(),
    }) + "]"@
}

/// The recorded form of every attribute that is not documentation, in order.
pub open spec fn attribute_marks(attrs: Seq<RawAttr>) -> Seq<Seq<char>>
    decreases attrs.len(),
{
    if attrs.len() == 0 {
        Seq::empty()
    } else {
        let rest = attribute_marks(attrs.drop_last());
        let a = attrs.last();
        if !is_doc_attribute(a) && a.segments@.len() > 0 {
            rest.push(attribute_mark(a))
        } else {
            rest
        }
    }
}

/// `pub`, `async`, `unsafe`, `const`, in this order, for those that the
/// function declares.
pub open spec fn qualifier_marks(f: RawFn) -> Seq<Seq<char>> {
    (if f.is_pub { seq!["pub"@] } else { Seq::empty() })
        + (if f.is_async { seq!["async"@] } else { Seq::empty() })
        + (if f.is_unsafe { seq!["unsafe"@] } else { Seq::empty() })
        + (if f.is_const { seq!["const"@] } else { Seq::empty() })
}

/// The attribute list recorded for a function.
pub open spec fn attributes_of(f: RawFn) -> Seq<Seq<char>> {
    attribute_marks(f.attrs@) + qualifier_marks(f)
}

/// Checks if an attribute is a documentation attribute (`#[doc = "..."]` or `///`).
pub fn is_doc_attr(a: &RawAttr) -> (r: bool)
    ensures
        r == is_doc_attribute(*a),
{
    if a.leading_colon || a.segments.len() != 1 {
        return false;
    }
    str_equal(a.segments[0].as_str(), "doc")
}

/// A documentation line without the space that follows `///`.
fn strip_leading_space(line: &String) -> (r: String)
    ensures
        r@ == strip_doc_prefix(line@),
{
    let cs = chars_of(line.as_str());
    if cs.len() > 0 && cs[0] == ' ' {
        let rest = String::from_str(line.as_str().substring_char(1, cs.len()));
        assert(line@.subrange(1, line@.len() as int) =~= line@.drop_first());
        rest
    } else {
        line.clone()
    }
}

/// The recorded form of an attribute (see [`attribute_mark`]).
fn format_attribute(a: &RawAttr) -> (r: String)
    requires
        a.segments@.len() > 0,
    ensures
        r@ == attribute_mark(*a),
{
    let mut m = String::from_str("#[");
    m.append(a.segments[a.segments.len() - 1].as_str());
    match &a.list_args {
        Some(x) => m.append(x.as_str()),
        None => {},
    }
    match &a.value {
        Some(v) => {
            m.append(" = ");
            m.append(v.as_str());
        },
        None => {},
    }
    m.append("]");
    m
}

/// Extracts documentation from a list of attributes: all documentation lines
/// (without the space after `///`) joined with `\n`, or `None` where there is none.
pub fn extract_docstring(attrs: &Vec<RawAttr>) -> (r: Option<String>)
    ensures
        opt_string_view(r) == docstring_text(attrs@),
{
    let mut lines: Vec<String> = Vec::new();
    let mut i: usize = 0;
    while i < attrs.len()
        invariant
            i <= attrs.len(),
            strings_view(lines@) == doc_lines(attrs@.take(i as int)),
        decreases attrs.len() - i,
    {
        let a = &attrs[i];
        assert(attrs@.take(i + 1).drop_last() =~= attrs@.take(i as int));
        if is_doc_attr(a) {
            match &a.doc_text {
                Some(t) => {
                    lines.push(strip_leading_space(t));
                },
                None => {},
            }
        }
        assert(strings_view(lines@) =~= doc_lines(attrs@.take(i + 1)));
        i = i + 1;
    }
    assert(attrs@.take(attrs.len() as int) =~= attrs@);
    if lines.len() == 0 {
        None
    } else {
        Some(join_strings(&lines, "\n"))
    }
}

/// The attribute list of a function: non-documentation attributes as
/// `#[name]`, then the qualifiers.
fn attribute_list(f: &RawFn) -> (r: Vec<String>)
    ensures
        strings_view(r@) == attributes_of(*f),
{
    let mut out: Vec<String> = Vec::new();
    let mut i: usize = 0;
    while i < f.attrs.len()
        invariant
            i <= f.attrs.len(),
            strings_view(out@) == attribute_marks(f.attrs@.take(i as int)),
        decreases f.attrs.len() - i,
    {
        let a = &f.attrs[i];
        assert(f.attrs@.take(i + 1).drop_last() =~= f.attrs@.take(i as int));
        if !is_doc_attr(a) && a.segments.len() > 0 {
            out.push(format_attribute(a));
        }
        assert(strings_view(out@) =~= attribute_marks(f.attrs@.take(i + 1)));
        i = i + 1;
    }
    assert(f.attrs@.take(f.attrs.len() as int) =~= f.attrs@);
    let ghost marks = strings_view(out@);
    if f.is_pub {
        out.push(String::from_str("pub"));
    }
    let ghost a1 = strings_view(out@);
    assert(a1 =~= marks + (if f.is_pub { seq!["pub"@] } else { Seq::empty() }));
    if f.is_async {
        out.push(String::from_str("async"));
    }
    let ghost a2 = strings_view(out@);
    assert(a2 =~= a1 + (if f.is_async { seq!["async"@] } else { Seq::empty() }));
    if f.is_unsafe {
        out.push(String::from_str("unsafe"));
    }
    let ghost a3 = strings_view(out@);
    assert(a3 =~= a2 + (if f.is_unsafe { seq!["unsafe"@] } else { Seq::empty() }));
    if f.is_const {
        out.push(String::from_str("const"));
    }
    assert(strings_view(out@) =~= a3 + (if f.is_const { seq!["const"@] } else { Seq::empty() }));
    out
}

/// Extracts the recorded attributes of a free function: attributes as
/// written, visibility (`pub`) and qualifiers (`async`, `unsafe`, `const`).
pub fn extract_attributes_from_fn(f: &RawFn) -> (r: Vec<String>)
    ensures
        strings_view(r@) == attributes_of(*f),
{
    attribute_list(f)
}

/// Extracts the recorded attributes of an `impl` method, as for a free function.
pub fn extract_attributes_from_impl_method(f: &RawFn) -> (r: Vec<String>)
    ensures
        strings_view(r@) == attributes_of(*f),
{
    attribute_list(f)
}

// ---------------------------------------------------------------- signature

/// The recorded return type: `()` where none is declared, `> &` where the
/// type's text is longer than 60 bytes in UTF-8, the type's text otherwise.
pub open spec fn return_text(output: Option<String>) -> Seq<char> {
    match output {
        None => "()"@,
        Some(t) => if vstd::utf8::encode_utf8(t@).len() > 60 { "> &"@ } else { t@ },
    }
}

/// The recorded text of a `self` receiver: `self`, `mut self`, `&self`,
/// `&mut self`, `&'a self`, `&'a mut self`.
pub open spec fn receiver_text(reference: bool, lifetime: Option<Seq<char>>, mutable: bool) -> Seq<char> {
    if reference {
        "&"@ + (match lifetime {
            Some(l) => l + " "@,
            None => Seq::empty(),
        }) + (if mutable { "mut "@ } else { Seq::empty() }) + "self"@
    } else if mutable {
        "mut self"@
    } else {
        "self"@
    }
}

/// The recorded text of a parameter: `name: Type` (`_` for a pattern that is
/// not an identifier), or the receiver's text.
pub open spec fn param_text(p: RawParam) -> Seq<char> {
    match p {
        RawParam::Typed { name, ty } => (match name {
            Some(n) => n@,
            None => "_"@,
        }) + ": "@ + ty@,
        RawParam::Receiver { reference, lifetime, mutable } => receiver_text(
            reference,
            opt_string_view(lifetime),
            mutable,
        ),
    }
}

/// The recorded texts of a parameter list.
pub open spec fn params_text(ps: Seq<RawParam>) -> Seq<Seq<char>> {
    ps.map_values(|p: RawParam| param_text(p))
}

/// Formats a function's return type (see [`return_text`]).
pub fn format_return_type(output: &Option<String>) -> (r: String)
    ensures
        r@ == return_text(*output),
{
    match output {
        None => String::from_str("()"),
        Some(t) => {
            if t.as_str().as_bytes().len() > 60 {
                String::from_str("> &")
            } else {
                t.clone()
            }
        },
    }
}

/// Formats a `self` receiver (see [`receiver_text`]).
fn format_receiver(reference: bool, lifetime: &Option<String>, mutable: bool) -> (r: String)
    ensures
        r@ == receiver_text(reference, opt_string_view(*lifetime), mutable),
{
    if reference {
        let mut r = String::from_str("&");
        match lifetime {
            Some(l) => {
                r.append(l.as_str());
                r.append(" ");
            },
            None => {},
        }
        if mutable {
            r.append("mut ");
        }
        r.append("self");
        r
    } else if mutable {
        String::from_str("mut self")
    } else {
        String::from_str("self")
    }
}

/// Formats one parameter (see [`param_text`]).
fn format_parameter(p: &RawParam) -> (r: String)
    ensures
        r@ == param_text(*p),
{
    match p {
        RawParam::Typed { name, ty } => {
            let mut s = match name {
                Some(n) => n.clone(),
                None => String::from_str("_"),
            };
            s.append(": ");
            s.append(ty.as_str());
            s
        },
        RawParam::Receiver { reference, lifetime, mutable } => format_receiver(
            *reference,
            lifetime,
            *mutable,
        ),
    }
}

/// Formats function parameters, one text per parameter (see [`param_text`]).
pub fn format_parameters(params: &Vec<RawParam>) -> (r: Vec<String>)
    ensures
        strings_view(r@) == params_text(params@),
{
    let mut out: Vec<String> = Vec::new();
    let mut i: usize = 0;
    while i < params.len()
        invariant
            i <= params.len(),
            strings_view(out@) == params_text(params@.take(i as int)),
        decreases params.len() - i,
    {
        let t = format_parameter(&params[i]);
        let ghost before = strings_view(out@);
        assert(t@ == param_text(params@[i as int]));
        out.push(t);
        assert(strings_view(out@) =~= before.push(t@));
        assert(params_text(params@.take(i + 1)) =~= params_text(params@.take(i as int)).push(t@));
        i = i + 1;
    }
    assert(params@.take(params.len() as int) =~= params@);
    out
}

// ---------------------------------------------------------------- calls

/// The names of the calls met in a body, in order: a path call's segments
/// joined by `::` (left out where that is empty), a method call's name, a
/// macro's path joined by `::` followed by `!`.
pub open spec fn call_names(raws: Seq<RawCall>) -> Seq<Seq<char>>
    decreases raws.len(),
{
    if raws.len() == 0 {
        Seq::empty()
    } else {
        let rest = call_names(raws.drop_last());
        match raws.last() {
            RawCall::Path(segs) => {
                let t = join(strings_view(segs@), "::"@);
                if t.len() > 0 {
                    rest.push(t)
                } else {
                    rest
                }
            },
            RawCall::Method(m) => rest.push(m@),
            RawCall::Macro(segs) => {
                let t = join(strings_view(segs@), "::"@);
                if t.len() > 0 {
                    rest.push(t + "!"@)
                } else {
                    rest
                }
            },
        }
    }
}

/// The meaningful names among `names`, in order.
pub open spec fn meaningful_only(names: Seq<Seq<char>>) -> Seq<Seq<char>>
    decreases names.len(),
{
    if names.len() == 0 {
        Seq::empty()
    } else {
        let rest = meaningful_only(names.drop_last());
        if is_meaningful(names.last()) {
            rest.push(names.last())
        } else {
            rest
        }
    }
}

/// Converts a path's segments (e.g. `std`, `fmt`, `Display`) to one string
/// (`"std::fmt::Display"`).
pub fn path_to_string(segments: &Vec<String>) -> (r: String)
    ensures
        r@ == join(strings_view(segments@), "::"@),
{
    join_strings(segments, "::")
}

/// The names of the calls met in a body (see [`call_names`]).
pub fn collect_calls(raws: &Vec<RawCall>) -> (r: Vec<String>)
    ensures
        strings_view(r@) == call_names(raws@),
{
    let mut out: Vec<String> = Vec::new();
    let mut i: usize = 0;
    while i < raws.len()
        invariant
            i <= raws.len(),
            strings_view(out@) == call_names(raws@.take(i as int)),
        decreases raws.len() - i,
    {
        assert(raws@.take(i + 1).drop_last() =~= raws@.take(i as int));
        match &raws[i] {
            RawCall::Path(segs) => {
                let t = path_to_string(segs);
                if !t.as_str().is_empty() {
                    out.push(t);
                }
            },
            RawCall::Method(m) => {
                out.push(m.clone());
            },
            RawCall::Macro(segs) => {
                let mut t = path_to_string(segs);
                if !t.as_str().is_empty() {
                    t.append("!");
                    out.push(t);
                }
            },
        }
        assert(strings_view(out@) =~= call_names(raws@.take(i + 1)));
        i = i + 1;
    }
    assert(raws@.take(raws.len() as int) =~= raws@);
    out
}

/// Keeps the meaningful names (see [`is_meaningful`]), in order.
pub fn meaningful_calls(names: Vec<String>) -> (r: Vec<String>)
    ensures
        strings_view(r@) == meaningful_only(strings_view(names@)),
{
    let ghost all = strings_view(names@);
    let mut out: Vec<String> = Vec::new();
    let mut i: usize = 0;
    while i < names.len()
        invariant
            all == strings_view(names@),
            i <= names.len(),
            strings_view(out@) == meaningful_only(all.take(i as int)),
        decreases names.len() - i,
    {
        assert(all.take(i + 1).drop_last() =~= all.take(i as int));
        assert(all.take(i + 1).last() == names@[i as int]@);
        if is_meaningful_call(names[i].as_str()) {
            out.push(names[i].clone());
        }
        assert(strings_view(out@) =~= meaningful_only(all.take(i + 1)));
        i = i + 1;
    }
    assert(all.take(names.len() as int) =~= all);
    out
}

// ---------------------------------------------------------------- declaration

/// The fully qualified name of a function: its enclosing path followed by
/// its identifier, joined by `::`.
pub open spec fn qualified_name(scope: Seq<Seq<char>>, name: Seq<char>) -> Seq<char> {
    join(scope.push(name), "::"@)
}

/// What is recorded of a function enclosed by `scope`, in a file.
pub open spec fn decl_of(f: RawFn, scope: Seq<Seq<char>>, file: Seq<char>) -> FunctionDeclView {
    FunctionDeclView {
        full_name: qualified_name(scope, f.name@),
        scope,
        file,
        line: f.line,
        returns: return_text(f.output),
        parameters: params_text(f.params@),
        docstring: docstring_text(f.attrs@),
        attributes: attributes_of(f),
        calls: meaningful_only(call_names(f.calls@)),
    }
}

/// Builds the record of a function enclosed by `scope` (see [`decl_of`]).
pub fn function_decl(f: &RawFn, scope: Vec<String>, file: String) -> (d: FunctionDecl)
    ensures
        d@ == decl_of(*f, strings_view(scope@), file@),
{
    let mut parts = clone_strings(&scope);
    let ghost sv = strings_view(scope@);
    parts.push(f.name.clone());
    assert(strings_view(parts@) =~= sv.push(f.name@));
    let full_name = join_strings(&parts, "::");
    let return_type = format_return_type(&f.output);
    let parameters = format_parameters(&f.params);
    let docstring = extract_docstring(&f.attrs);
    let attributes = attribute_list(f);
    let calls = meaningful_calls(collect_calls(&f.calls));
    FunctionDecl {
        full_name,
        scope,
        file,
        line: f.line,
        returns: return_type,
        parameters,
        docstring,
        attributes,
        calls,
    }
}

} // verus!
