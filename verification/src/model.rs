//! The library's model of parsed Rust source: for each file, the items in
//! the order in which a syntax-tree walk meets them, each holding as plain
//! values what the analysis reads from it.

use vstd::prelude::*;

verus! {

/// An attribute as written on a function: its path, its arguments as
/// written, and, where it carries a string (`/// text`, `#[doc = "text"]`,
/// `#[doc("text")]`), that string.
pub struct RawAttr {
    /// The path starts with `::`.
    pub leading_colon: bool,
    /// The identifiers of the path's segments, in order.
    pub segments: Vec<String>,
    /// The string literal that the attribute carries, if any.
    pub doc_text: Option<String>,
    /// For `#[name(...)]`: the delimited arguments as written, `(...)` included.
    pub list_args: Option<String>,
    /// For `#[name = value]`: the value as written.
    pub value: Option<String>,
}

/// A parameter of a function signature.
pub enum RawParam {
    /// `pattern: Type`; `name` is the identifier where the pattern is one,
    /// `ty` is the type as written.
    Typed { name: Option<String>, ty: String },
    /// A `self` receiver: `self`, `mut self`, `&self`, `&'a mut self`.
    Receiver { reference: bool, lifetime: Option<String>, mutable: bool },
}

/// A call met while walking a function body, in walk order.
pub enum RawCall {
    /// A call through a path expression `a::b::f(..)`: the segment identifiers.
    Path(Vec<String>),
    /// A method call `x.m(..)`: the method's name.
    Method(String),
    /// A macro call `a::m!(..)`: the segment identifiers of the macro's path.
    Macro(Vec<String>),
}

/// A function or method as written.
pub struct RawFn {
    /// The function's identifier.
    pub name: String,
    /// Line of the identifier.
    pub line: usize,
    /// Attributes, in order.
    pub attrs: Vec<RawAttr>,
    /// Declared `pub`.
    pub is_pub: bool,
    /// Declared `async`.
    pub is_async: bool,
    /// Declared `unsafe`.
    pub is_unsafe: bool,
    /// Declared `const`.
    pub is_const: bool,
    /// The declared return type as written; `None` when there is no `->`.
    pub output: Option<String>,
    /// Parameters, in order.
    pub params: Vec<RawParam>,
    /// Every call met in the body, nested items' bodies included, in walk order.
    pub calls: Vec<RawCall>,
}

/// An item met while walking a file. `module` is the path of the inline
/// `mod` blocks that enclose the item within its file, outermost first.
pub enum SourceItem {
    /// `struct Name ..`.
    Struct { module: Vec<String>, name: String, line: usize },
    /// A free function.
    Function { module: Vec<String>, f: RawFn },
    /// An `impl` block: the segment identifiers of the implementing type where
    /// it is a path type (`None` otherwise), and its methods in order.
    Impl { module: Vec<String>, self_ty: Option<Vec<String>>, methods: Vec<RawFn> },
}

/// A parsed source file: its path (`/`-separated) relative to the root of
/// the crate it belongs to, and its items in walk order (an item's nested
/// items come after it).
pub struct SourceFile {
    pub path: String,
    pub items: Vec<SourceItem>,
}

} // verus!
