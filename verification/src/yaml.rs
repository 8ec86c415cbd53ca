//! The YAML document model of a project's analysis.

use vstd::prelude::*;
use vstd::string::*;
use crate::data::{
    FunctionDecl, FunctionDeclView, SubprojectAnalysis, SubprojectAnalysisView, YamlCall,
    YamlCallView, YamlFunction, YamlFunctionView, YamlOutput, YamlOutputView, YamlStruct,
    YamlSubproject, YamlSubprojectView,
};
use crate::index::{function_index, index_functions, FunctionIndex};
use crate::text::{clone_strings, strings_view};
use crate::analysis::function_views;

verus! {

/// A call as the document records it: with the file and line of the crate's
/// function of exactly that full name where there is one (the last one
/// declared), marked external, with neither file nor line, otherwise.
pub open spec fn yaml_call(name: Seq<char>, index: Map<Seq<char>, (Seq<char>, usize)>) -> YamlCallView {
    if index.contains_key(name) {
        YamlCallView { name, file: Some(index[name].0), line: Some(index[name].1), external: None }
    } else {
        YamlCallView { name, file: None, line: None, external: Some(true) }
    }
}

/// The calls of a function as the document records them.
pub open spec fn yaml_calls(names: Seq<Seq<char>>, index: Map<Seq<char>, (Seq<char>, usize)>) -> Seq<YamlCallView> {
    names.map_values(|c: Seq<char>| yaml_call(c, index))
}

/// A function as the document records it; an empty parameter list is left out.
pub open spec fn yaml_function(f: FunctionDeclView, index: Map<Seq<char>, (Seq<char>, usize)>) -> YamlFunctionView {
    YamlFunctionView {
        name: f.full_name,
        file: f.file,
        line: f.line,
        returns: f.returns,
        parameters: if f.parameters.len() == 0 { None } else { Some(f.parameters) },
        docstring: f.docstring,
        attributes: f.attributes,
        calls: yaml_calls(f.calls, index),
    }
}

/// The functions of a crate as the document records them, calls resolved
/// against the crate's own function index.
pub open spec fn yaml_functions(fs: Seq<FunctionDeclView>) -> Seq<YamlFunctionView> {
    fs.map_values(|f: FunctionDeclView| yaml_function(f, function_index(fs)))
}

/// One crate of the project as the document records it.
pub open spec fn yaml_subproject(s: SubprojectAnalysisView) -> YamlSubprojectView {
    YamlSubprojectView {
        name: s.name,
        root: s.root,
        structures: s.analysis.structs,
        functions: yaml_functions(s.analysis.functions),
    }
}

/// The document of a project: format version `1.0`, no project name, and one
/// subproject per crate, in order.
pub open spec fn yaml_output_of(subs: Seq<SubprojectAnalysisView>) -> YamlOutputView {
    YamlOutputView {
        version: "1.0"@,
        project_name: None,
        subprojects: subs.map_values(|s: SubprojectAnalysisView| yaml_subproject(s)),
    }
}

/// Resolves one call against the crate's index.
fn build_call(name: &String, index: &FunctionIndex) -> (r: YamlCall)
    ensures
        r@ == yaml_call(name@, index@),
{
    match index.get(name.as_str()) {
        Some(e) => YamlCall {
            name: name.clone(),
            file: Some(e.file.clone()),
            line: Some(e.line),
            external: None,
        },
        None => YamlCall { name: name.clone(), file: None, line: None, external: Some(true) },
    }
}

/// Builds the document record of one function.
fn build_function(f: &FunctionDecl, index: &FunctionIndex) -> (r: YamlFunction)
    ensures
        r@ == yaml_function(f@, index@),
{
    let mut calls: Vec<YamlCall> = Vec::new();
    let mut i: usize = 0;
    while i < f.calls.len()
        invariant
            i <= f.calls.len(),
            calls@.map_values(|c: YamlCall| c@) == yaml_calls(strings_view(f.calls@).take(i as int), index@),
        decreases f.calls.len() - i,
    {
        let c = build_call(&f.calls[i], index);
        let ghost before = calls@.map_values(|c: YamlCall| c@);
        calls.push(c);
        assert(calls@.map_values(|c: YamlCall| c@) =~= before.push(c@));
        assert(yaml_calls(strings_view(f.calls@).take(i + 1), index@) =~= yaml_calls(
            strings_view(f.calls@).take(i as int),
            index@,
        ).push(c@));
        i = i + 1;
    }
    assert(strings_view(f.calls@).take(f.calls.len() as int) =~= strings_view(f.calls@));
    let parameters = if f.parameters.len() == 0 {
        None
    } else {
        Some(clone_strings(&f.parameters))
    };
    let docstring = match &f.docstring {
        Some(d) => Some(d.clone()),
        None => None,
    };
    let r = YamlFunction {
        name: f.full_name.clone(),
        file: f.file.clone(),
        line: f.line,
        returns: f.returns.clone(),
        parameters,
        docstring,
        attributes: clone_strings(&f.attributes),
        calls,
    };
    assert(r@.calls =~= yaml_function(f@, index@).calls);
    r
}

/// Builds the document record of one crate.
fn build_subproject(s: &SubprojectAnalysis) -> (r: YamlSubproject)
    ensures
        r@ == yaml_subproject(s@),
{
    let analysis = &s.analysis;
    let index = index_functions(analysis.functions.as_slice());
    let ghost fs = function_views(analysis.functions@);
    let mut functions: Vec<YamlFunction> = Vec::new();
    let mut i: usize = 0;
    while i < analysis.functions.len()
        invariant
            fs == function_views(analysis.functions@),
            index@ == function_index(fs),
            i <= analysis.functions.len(),
            functions@.map_values(|f: YamlFunction| f@) == fs.take(i as int).map_values(
                |f: FunctionDeclView| yaml_function(f, function_index(fs)),
            ),
        decreases analysis.functions.len() - i,
    {
        let y = build_function(&analysis.functions[i], &index);
        let ghost before = functions@.map_values(|f: YamlFunction| f@);
        functions.push(y);
        assert(functions@.map_values(|f: YamlFunction| f@) =~= before.push(y@));
        assert(fs.take(i + 1).map_values(|f: FunctionDeclView| yaml_function(f, function_index(fs)))
            =~= fs.take(i as int).map_values(|f: FunctionDeclView| yaml_function(f, function_index(fs))).push(y@));
        i = i + 1;
    }
    assert(fs.take(analysis.functions.len() as int) =~= fs);
    let mut structures: Vec<YamlStruct> = Vec::new();
    let mut j: usize = 0;
    while j < analysis.structs.len()
        invariant
            j <= analysis.structs.len(),
            structures@.map_values(|s: YamlStruct| s@) == analysis@.structs.take(j as int),
        decreases analysis.structs.len() - j,
    {
        let st = &analysis.structs[j];
        let y = YamlStruct { name: st.name.clone(), file: st.file.clone(), line: st.line };
        let ghost before = structures@.map_values(|s: YamlStruct| s@);
        structures.push(y);
        assert(structures@.map_values(|s: YamlStruct| s@) =~= before.push(y@));
        assert(analysis@.structs.take(j + 1) =~= analysis@.structs.take(j as int).push(y@));
        j = j + 1;
    }
    assert(analysis@.structs.take(analysis.structs.len() as int) =~= analysis@.structs);
    let r = YamlSubproject { name: s.name.clone(), root: s.root.clone(), structures, functions };
    assert(r@.functions =~= yaml_subproject(s@).functions);
    r
}

/// Builds the YAML document model of a project's crates (see [`yaml_output_of`]).
pub fn build_yaml_output(subprojects: &Vec<SubprojectAnalysis>) -> (r: YamlOutput)
    ensures
        r@ == yaml_output_of(subprojects@.map_values(|s: SubprojectAnalysis| s@)),
{
    let ghost subs = subprojects@.map_values(|s: SubprojectAnalysis| s@);
    let mut out: Vec<YamlSubproject> = Vec::new();
    let mut i: usize = 0;
    while i < subprojects.len()
        invariant
            subs == subprojects@.map_values(|s: SubprojectAnalysis| s@),
            i <= subprojects.len(),
            out@.map_values(|s: YamlSubproject| s@) == subs.take(i as int).map_values(
                |s: SubprojectAnalysisView| yaml_subproject(s),
            ),
        decreases subprojects.len() - i,
    {
        let y = build_subproject(&subprojects[i]);
        let ghost before = out@.map_values(|s: YamlSubproject| s@);
        out.push(y);
        assert(out@.map_values(|s: YamlSubproject| s@) =~= before.push(y@));
        assert(subs.take(i + 1).map_values(|s: SubprojectAnalysisView| yaml_subproject(s))
            =~= subs.take(i as int).map_values(|s: SubprojectAnalysisView| yaml_subproject(s)).push(y@));
        i = i + 1;
    }
    assert(subs.take(subprojects.len() as int) =~= subs);
    let r = YamlOutput { version: String::from_str("1.0"), project_name: None, subprojects: out };
    assert(r@.subprojects =~= yaml_output_of(subs).subprojects);
    r
}

} // verus!
