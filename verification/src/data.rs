//! Analysis results and the YAML document model, with their views.

use vstd::prelude::*;
use crate::text::{strings_view, opt_string_view};

verus! {

/// Represents a struct definition found in the source code.
#[derive(Debug, Clone)]
pub struct StructDecl {
    /// Name of the struct (e.g. `"AuthState"`).
    pub name: String,
    /// File path relative to the subproject root (e.g. `"src/state.rs"`).
    pub file: String,
    /// Line number where the struct is defined.
    pub line: usize,
}

pub struct StructDeclView {
    pub name: Seq<char>,
    pub file: Seq<char>,
    pub line: usize,
}

impl View for StructDecl {
    type V = StructDeclView;

    open spec fn view(&self) -> StructDeclView {
        StructDeclView { name: self.name@, file: self.file@, line: self.line }
    }
}

/// Represents a function or method found in the source code.
#[derive(Debug, Clone)]
pub struct FunctionDecl {
    /// Fully qualified name (e.g. `"my_mod::Auth::validate"` or `"free_function"`):
    /// `scope` followed by the function's identifier, joined by `::`.
    pub full_name: String,
    /// The path that encloses the function: the module path (from the file's
    /// place in the crate, then inline modules) and, for a method, its type.
    pub scope: Vec<String>,
    /// File path relative to the subproject root.
    pub file: String,
    /// Line number of the function definition.
    pub line: usize,
    /// String representation of the return type (e.g. `"Result<(), Error>"`).
    pub returns: String,
    /// List of parameters in `"name: Type"` format.
    pub parameters: Vec<String>,
    /// Documentation comment text (if any), with newlines preserved.
    pub docstring: Option<String>,
    /// List of attributes and qualifiers:
    /// - Attribute macros: `"#[test]"`, `"#[cfg(test)]"`
    /// - Language keywords: `"pub"`, `"async"`, `"unsafe"`, `"const"`
    pub attributes: Vec<String>,
    /// List of **meaningful** called function names (filtered for noise).
    pub calls: Vec<String>,
}

pub struct FunctionDeclView {
    pub full_name: Seq<char>,
    pub scope: Seq<Seq<char>>,
    pub file: Seq<char>,
    pub line: usize,
    pub returns: Seq<char>,
    pub parameters: Seq<Seq<char>>,
    pub docstring: Option<Seq<char>>,
    pub attributes: Seq<Seq<char>>,
    pub calls: Seq<Seq<char>>,
}

impl View for FunctionDecl {
    type V = FunctionDeclView;

    open spec fn view(&self) -> FunctionDeclView {
        FunctionDeclView {
            full_name: self.full_name@,
            scope: strings_view(self.scope@),
            file: self.file@,
            line: self.line,
            returns: self.returns@,
            parameters: strings_view(self.parameters@),
            docstring: opt_string_view(self.docstring),
            attributes: strings_view(self.attributes@),
            calls: strings_view(self.calls@),
        }
    }
}

/// The top-level result of a project analysis.
#[derive(Debug)]
pub struct AnalysisResult {
    /// All struct definitions found.
    pub structs: Vec<StructDecl>,
    /// All function and method definitions found.
    pub functions: Vec<FunctionDecl>,
}

pub struct AnalysisView {
    pub structs: Seq<StructDeclView>,
    pub functions: Seq<FunctionDeclView>,
}

impl View for AnalysisResult {
    type V = AnalysisView;

    open spec fn view(&self) -> AnalysisView {
        AnalysisView {
            structs: self.structs@.map_values(|s: StructDecl| s@),
            functions: self.functions@.map_values(|f: FunctionDecl| f@),
        }
    }
}

/// The analysis of one crate of a project: the crate's name, its root (the
/// path from the analysis root, `.` for the root itself), and its records,
/// whose files are relative to that root.
#[derive(Debug)]
pub struct SubprojectAnalysis {
    pub name: String,
    pub root: String,
    pub analysis: AnalysisResult,
}

pub struct SubprojectAnalysisView {
    pub name: Seq<char>,
    pub root: Seq<char>,
    pub analysis: AnalysisView,
}

impl View for SubprojectAnalysis {
    type V = SubprojectAnalysisView;

    open spec fn view(&self) -> SubprojectAnalysisView {
        SubprojectAnalysisView { name: self.name@, root: self.root@, analysis: self.analysis@ }
    }
}

/// YAML representation of a struct.
#[derive(Debug)]
pub struct YamlStruct {
    pub name: String,
    pub file: String,
    pub line: usize,
}

impl View for YamlStruct {
    type V = StructDeclView;

    open spec fn view(&self) -> StructDeclView {
        StructDeclView { name: self.name@, file: self.file@, line: self.line }
    }
}

/// YAML representation of a function call.
#[derive(Debug)]
pub struct YamlCall {
    /// Name of the called function.
    pub name: String,
    /// Present only for internal calls: file path relative to subproject root.
    pub file: Option<String>,
    /// Present only for internal calls: line number.
    pub line: Option<usize>,
    /// `true` if the call is to a function that the project does not declare.
    pub external: Option<bool>,
}

pub struct YamlCallView {
    pub name: Seq<char>,
    pub file: Option<Seq<char>>,
    pub line: Option<usize>,
    pub external: Option<bool>,
}

impl View for YamlCall {
    type V = YamlCallView;

    open spec fn view(&self) -> YamlCallView {
        YamlCallView {
            name: self.name@,
            file: opt_string_view(self.file),
            line: self.line,
            external: self.external,
        }
    }
}

/// YAML representation of a function or method.
#[derive(Debug)]
pub struct YamlFunction {
    pub name: String,
    pub file: String,
    pub line: usize,
    pub returns: String,
    pub parameters: Option<Vec<String>>,
    pub docstring: Option<String>,
    pub attributes: Vec<String>,
    pub calls: Vec<YamlCall>,
}

pub struct YamlFunctionView {
    pub name: Seq<char>,
    pub file: Seq<char>,
    pub line: usize,
    pub returns: Seq<char>,
    pub parameters: Option<Seq<Seq<char>>>,
    pub docstring: Option<Seq<char>>,
    pub attributes: Seq<Seq<char>>,
    pub calls: Seq<YamlCallView>,
}

impl View for YamlFunction {
    type V = YamlFunctionView;

    open spec fn view(&self) -> YamlFunctionView {
        YamlFunctionView {
            name: self.name@,
            file: self.file@,
            line: self.line,
            returns: self.returns@,
            parameters: match self.parameters {
                Some(p) => Some(strings_view(p@)),
                None => None,
            },
            docstring: opt_string_view(self.docstring),
            attributes: strings_view(self.attributes@),
            calls: self.calls@.map_values(|c: YamlCall| c@),
        }
    }
}

/// YAML representation of a crate (subproject).
#[derive(Debug)]
pub struct YamlSubproject {
    /// Crate name from `Cargo.toml`.
    pub name: String,
    /// Path from analysis root to this subproject root.
    pub root: String,
    pub structures: Vec<YamlStruct>,
    pub functions: Vec<YamlFunction>,
}

pub struct YamlSubprojectView {
    pub name: Seq<char>,
    pub root: Seq<char>,
    pub structures: Seq<StructDeclView>,
    pub functions: Seq<YamlFunctionView>,
}

impl View for YamlSubproject {
    type V = YamlSubprojectView;

    open spec fn view(&self) -> YamlSubprojectView {
        YamlSubprojectView {
            name: self.name@,
            root: self.root@,
            structures: self.structures@.map_values(|s: YamlStruct| s@),
            functions: self.functions@.map_values(|f: YamlFunction| f@),
        }
    }
}

/// Top-level YAML output document.
#[derive(Debug)]
pub struct YamlOutput {
    /// Schema version (`"1.0"`).
    pub version: String,
    /// Optional top-level project name.
    pub project_name: Option<String>,
    /// List of analyzed crates (subprojects).
    pub subprojects: Vec<YamlSubproject>,
}

pub struct YamlOutputView {
    pub version: Seq<char>,
    pub project_name: Option<Seq<char>>,
    pub subprojects: Seq<YamlSubprojectView>,
}

impl View for YamlOutput {
    type V = YamlOutputView;

    open spec fn view(&self) -> YamlOutputView {
        YamlOutputView {
            version: self.version@,
            project_name: opt_string_view(self.project_name),
            subprojects: self.subprojects@.map_values(|s: YamlSubproject| s@),
        }
    }
}

} // verus!
