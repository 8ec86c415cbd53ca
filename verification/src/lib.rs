//! Structured static analysis of Rust source code: the verified core.
//!
//! The library parses source text ([`parse`]) and takes a model of each
//! crate's parsed files ([`model`]); it records their structs and functions
//! with fully qualified names, signatures, documentation, attributes and
//! meaningful calls ([`analysis`], [`extract`], [`calls`]), resolves each
//! crate's call graph against its own function index ([`index`]), and builds
//! the YAML document model, one subproject per crate ([`yaml`]). It also
//! decides which crates a project has ([`workspace`], [`manifest`]) and which
//! directory entries a walk enters ([`walk`]).

pub mod text;
pub mod calls;
pub mod model;
pub mod data;
pub mod extract;
pub mod analysis;
pub mod index;
pub mod yaml;
pub mod manifest;
pub mod walk;
pub mod parse;
pub mod workspace;
pub mod laws;

pub use data::{
    AnalysisResult, FunctionDecl, StructDecl, SubprojectAnalysis, YamlCall, YamlFunction,
    YamlOutput, YamlStruct, YamlSubproject,
};
pub use analysis::analyze_project;
pub use yaml::build_yaml_output;
