//! Properties of the analysis as a whole.

use vstd::prelude::*;
use crate::calls::{is_meaningful, is_noise, noise_words, unicode_alphabetic};
use crate::data::{FunctionDeclView, SubprojectAnalysisView};
use crate::extract::{
    attribute_mark, attribute_marks, attributes_of, call_names, decl_of, doc_lines, docstring_text,
    is_doc_attribute, meaningful_only, qualified_name, qualifier_marks, strip_doc_prefix,
};
use crate::index::function_index;
use crate::model::{RawAttr, RawFn, SourceFile, SourceItem};
use crate::analysis::{
    analysis_of, file_module_path, files_functions, files_structs, impl_parts, item_functions,
    item_structs, items_functions, items_structs, method_decls,
};
use crate::text::{all_ascii_lowercase, has_path_separator, join, separator_at, strings_view};
use crate::walk::{skipped_entry, skipped_names, source_path};
use crate::workspace::crate_roots;
use crate::yaml::{yaml_functions, yaml_output_of};

verus! {

/// A noise word is never recorded as a call.
pub proof fn law_noise_is_never_meaningful(name: Seq<char>)
    requires
        is_noise(name),
    ensures
        !is_meaningful(name),
{
}

/// The noise words are exactly these: conversions (`clone`, `to_string`,
/// `into`, `from`, `as_ref`, `deref`, `borrow`, `as_mut`), `Option` and
/// `Result` combinators, iterator adapters (`iter` to `inspect`, `collect`
/// among them), collection methods (`push` to `values`), constructors, the
/// logging functions and macros, `serialize`, `deserialize`, and the string
/// and path helpers (`join` to `extension`); none of them is ever recorded as
/// a call. (`contains` is listed twice, among the collection methods and
/// among the string helpers.)
pub proof fn law_noise_words_are_listed(name: Seq<char>)
    ensures
        ({
            let ws = seq![
                "clone"@, "to_string"@, "into"@, "from"@, "as_ref"@, "deref"@, "borrow"@, "as_mut"@,
                "map"@, "map_err"@, "and_then"@, "or_else"@, "unwrap"@, "expect"@, "ok"@, "err"@,
                "is_ok"@, "is_err"@, "is_some"@, "is_none"@, "unwrap_or"@, "unwrap_or_else"@,
                "iter"@, "into_iter"@, "next"@, "collect"@, "filter"@, "find"@, "for_each"@,
                "enumerate"@, "zip"@, "take"@, "skip"@, "inspect"@,
                "push"@, "pop"@, "insert"@, "remove"@, "get"@, "contains"@, "len"@, "is_empty"@,
                "clear"@, "extend"@, "keys"@, "values"@,
                "new"@, "default"@, "Some"@, "Ok"@, "Err"@,
                "info"@, "warn"@, "error"@, "debug"@, "trace"@,
                "serialize"@, "deserialize"@,
                "join"@, "starts_with"@, "ends_with"@, "contains"@, "file_name"@, "extension"@,
                "info!"@, "warn!"@, "error!"@, "debug!"@, "trace!"@
            ];
            &&& (is_noise(name) <==> ws.contains(name))
            &&& forall|i: int| 0 <= i < ws.len() ==> is_noise(#[trigger] ws[i]) && !is_meaningful(ws[i])
        }),
{
    let ws = seq![
        "clone"@, "to_string"@, "into"@, "from"@, "as_ref"@, "deref"@, "borrow"@, "as_mut"@,
        "map"@, "map_err"@, "and_then"@, "or_else"@, "unwrap"@, "expect"@, "ok"@, "err"@,
        "is_ok"@, "is_err"@, "is_some"@, "is_none"@, "unwrap_or"@, "unwrap_or_else"@,
        "iter"@, "into_iter"@, "next"@, "collect"@, "filter"@, "find"@, "for_each"@,
        "enumerate"@, "zip"@, "take"@, "skip"@, "inspect"@,
        "push"@, "pop"@, "insert"@, "remove"@, "get"@, "contains"@, "len"@, "is_empty"@,
        "clear"@, "extend"@, "keys"@, "values"@,
        "new"@, "default"@, "Some"@, "Ok"@, "Err"@,
        "info"@, "warn"@, "error"@, "debug"@, "trace"@,
        "serialize"@, "deserialize"@,
        "join"@, "starts_with"@, "ends_with"@, "contains"@, "file_name"@, "extension"@,
        "info!"@, "warn!"@, "error!"@, "debug!"@, "trace!"@
    ];
    assert(ws =~= noise_words());
}

/// The calls kept for a function are exactly its meaningful calls: every kept
/// name is meaningful, and every meaningful name is kept.
pub proof fn law_recorded_calls_are_meaningful(names: Seq<Seq<char>>)
    ensures
        forall|i: int| 0 <= i < meaningful_only(names).len() ==> is_meaningful(#[trigger] meaningful_only(names)[i]),
        forall|i: int| 0 <= i < names.len() && is_meaningful(#[trigger] names[i]) ==> meaningful_only(names).contains(names[i]),
    decreases names.len(),
{
    if names.len() > 0 {
        let rest = names.drop_last();
        law_recorded_calls_are_meaningful(rest);
        assert forall|i: int| 0 <= i < names.len() && is_meaningful(#[trigger] names[i]) implies meaningful_only(names).contains(names[i]) by {
            if i < names.len() - 1 {
                assert(rest[i] == names[i]);
                let k = choose|k: int| 0 <= k < meaningful_only(rest).len() && meaningful_only(rest)[k] == names[i];
                assert(meaningful_only(names)[k] == names[i]);
            } else {
                assert(meaningful_only(names).last() == names[i]);
            }
        }
    }
}

/// Every declared function is found in the index under its name.
pub proof fn law_declared_names_resolve(fs: Seq<FunctionDeclView>, i: int)
    requires
        0 <= i < fs.len(),
    ensures
        function_index(fs).contains_key(fs[i].full_name),
    decreases fs.len(),
{
    if i < fs.len() - 1 {
        law_declared_names_resolve(fs.drop_last(), i);
    }
}

/// A name is missing from the index exactly when no function declares it.
pub proof fn law_unknown_names_are_undeclared(fs: Seq<FunctionDeclView>, name: Seq<char>)
    ensures
        !function_index(fs).contains_key(name) <==> forall|j: int| 0 <= j < fs.len() ==> fs[j].full_name != name,
    decreases fs.len(),
{
    if fs.len() > 0 {
        law_unknown_names_are_undeclared(fs.drop_last(), name);
        if function_index(fs).contains_key(name) && fs.last().full_name != name {
            let j = choose|j: int| 0 <= j < fs.len() - 1 && fs.drop_last()[j].full_name == name;
            assert(fs[j].full_name == name);
        }
        if !function_index(fs).contains_key(name) {
            assert forall|j: int| 0 <= j < fs.len() implies fs[j].full_name != name by {
                if j < fs.len() - 1 {
                    assert(fs.drop_last()[j] == fs[j]);
                }
            }
        }
    }
}

/// Where several functions share a name, the index records the place of the
/// last of them.
pub proof fn law_index_keeps_last_declaration(fs: Seq<FunctionDeclView>, i: int)
    requires
        0 <= i < fs.len(),
        forall|j: int| i < j < fs.len() ==> fs[j].full_name != fs[i].full_name,
    ensures
        function_index(fs).contains_key(fs[i].full_name),
        function_index(fs)[fs[i].full_name] == (fs[i].file, fs[i].line),
    decreases fs.len(),
{
    if i < fs.len() - 1 {
        law_index_keeps_last_declaration(fs.drop_last(), i);
    }
}

/// In the document of a crate, every function of the analysis is listed once,
/// in order, under its full name; every call keeps its name and place; a call
/// carries a file exactly when it carries a line, and it is marked external
/// exactly when it carries neither; a call is internal exactly when the crate
/// declares a function of exactly that full name, and then it carries the
/// file and line of the last one declared.
pub proof fn law_calls_are_internal_or_external(fs: Seq<FunctionDeclView>)
    ensures
        ({
            let ys = yaml_functions(fs);
            &&& ys.len() == fs.len()
            &&& forall|i: int| 0 <= i < ys.len() ==> (#[trigger] ys[i]).name == fs[i].full_name
            &&& forall|i: int| 0 <= i < ys.len() ==> (#[trigger] ys[i]).calls.len() == fs[i].calls.len()
            &&& forall|i: int, j: int|
                0 <= i < ys.len() && 0 <= j < ys[i].calls.len() ==> {
                    let c = #[trigger] ys[i].calls[j];
                    &&& c.name == fs[i].calls[j]
                    &&& (c.file is Some <==> c.line is Some)
                    &&& (c.external is Some <==> c.file is None)
                    &&& (c.external is Some ==> c.external == Some(true))
                    &&& (c.file is Some <==> exists|m: int| 0 <= m < fs.len() && #[trigger] fs[m].full_name == c.name)
                    &&& forall|m: int|
                        0 <= m < fs.len() && fs[m].full_name == c.name
                            && (forall|n: int| m < n < fs.len() ==> fs[n].full_name != c.name)
                        ==> c.file == Some(#[trigger] fs[m].file) && c.line == Some(fs[m].line)
                }
        }),
{
    let ys = yaml_functions(fs);
    assert forall|i: int, j: int| 0 <= i < ys.len() && 0 <= j < ys[i].calls.len() implies {
        let c = #[trigger] ys[i].calls[j];
        &&& (c.file is Some <==> exists|m: int| 0 <= m < fs.len() && #[trigger] fs[m].full_name == c.name)
        &&& forall|m: int|
            0 <= m < fs.len() && fs[m].full_name == c.name
                && (forall|n: int| m < n < fs.len() ==> fs[n].full_name != c.name)
            ==> c.file == Some(#[trigger] fs[m].file) && c.line == Some(fs[m].line)
    } by {
        let c = ys[i].calls[j];
        law_unknown_names_are_undeclared(fs, c.name);
        assert forall|m: int|
            0 <= m < fs.len() && fs[m].full_name == c.name
                && (forall|n: int| m < n < fs.len() ==> fs[n].full_name != c.name)
            implies c.file == Some(#[trigger] fs[m].file) && c.line == Some(fs[m].line) by {
            law_index_keeps_last_declaration(fs, m);
        }
    }
}

/// Every call that a function record holds is meaningful.
pub open spec fn calls_meaningful(d: FunctionDeclView) -> bool {
    forall|j: int| 0 <= j < d.calls.len() ==> is_meaningful(#[trigger] d.calls[j])
}

proof fn lemma_method_decls(scope: Seq<Seq<char>>, methods: Seq<RawFn>, file: Seq<char>)
    ensures
        forall|i: int| 0 <= i < method_decls(scope, methods, file).len() ==> {
            let d = #[trigger] method_decls(scope, methods, file)[i];
            calls_meaningful(d) && d.file == file
        },
    decreases methods.len(),
{
    if methods.len() > 0 {
        lemma_method_decls(scope, methods.drop_last(), file);
        let m = methods.last();
        law_recorded_calls_are_meaningful(call_names(m.calls@));
        let ds = method_decls(scope, methods, file);
        assert forall|i: int| 0 <= i < ds.len() implies {
            let d = #[trigger] ds[i];
            calls_meaningful(d) && d.file == file
        } by {
            if i < ds.len() - 1 {
                assert(ds[i] == method_decls(scope, methods.drop_last(), file)[i]);
            }
        }
    }
}

proof fn lemma_items_functions(file: Seq<char>, fm: Seq<Seq<char>>, items: Seq<SourceItem>)
    ensures
        forall|i: int| 0 <= i < items_functions(file, fm, items).len() ==> {
            let d = #[trigger] items_functions(file, fm, items)[i];
            calls_meaningful(d) && d.file == file
        },
    decreases items.len(),
{
    if items.len() > 0 {
        let rest = items_functions(file, fm, items.drop_last());
        let last = item_functions(file, fm, items.last());
        lemma_items_functions(file, fm, items.drop_last());
        match items.last() {
            SourceItem::Struct { .. } => {},
            SourceItem::Function { module, f } => {
                law_recorded_calls_are_meaningful(call_names(f.calls@));
            },
            SourceItem::Impl { module, self_ty, methods } => {
                lemma_method_decls(fm + strings_view(module@) + impl_parts(self_ty), methods@, file);
            },
        }
        let ds = items_functions(file, fm, items);
        assert forall|i: int| 0 <= i < ds.len() implies {
            let d = #[trigger] ds[i];
            calls_meaningful(d) && d.file == file
        } by {
            if i < rest.len() {
                assert(ds[i] == rest[i]);
            } else {
                assert(ds[i] == last[i - rest.len()]);
            }
        }
    }
}

proof fn lemma_items_structs(file: Seq<char>, items: Seq<SourceItem>)
    ensures
        forall|i: int| 0 <= i < items_structs(file, items).len() ==> (#[trigger] items_structs(file, items)[i]).file == file,
    decreases items.len(),
{
    if items.len() > 0 {
        lemma_items_structs(file, items.drop_last());
        let rest = items_structs(file, items.drop_last());
        let last = item_structs(file, items.last());
        let ds = items_structs(file, items);
        assert forall|i: int| 0 <= i < ds.len() implies (#[trigger] ds[i]).file == file by {
            if i < rest.len() {
                assert(ds[i] == rest[i]);
            } else {
                assert(ds[i] == last[i - rest.len()]);
            }
        }
    }
}

/// In the analysis of a crate, every recorded call is meaningful, and every
/// record's file is the path of one of the crate's source files, a path that
/// a walk of the crate analyzes: it ends with `.rs`, its file name holds no
/// `~`, and none of its components is hidden or a build directory.
pub proof fn law_analysis_records(files: Seq<SourceFile>)
    ensures
        forall|i: int| 0 <= i < analysis_of(files).functions.len() ==> {
            let d = #[trigger] analysis_of(files).functions[i];
            calls_meaningful(d) && source_path(d.file) && exists|k: int| 0 <= k < files.len() && files[k].path@ == d.file
        },
        forall|i: int| 0 <= i < analysis_of(files).structs.len() ==> {
            let s = #[trigger] analysis_of(files).structs[i];
            source_path(s.file) && exists|k: int| 0 <= k < files.len() && files[k].path@ == s.file
        },
    decreases files.len(),
{
    if files.len() > 0 {
        let init = files.drop_last();
        let f = files.last();
        law_analysis_records(init);
        lemma_items_functions(f.path@, file_module_path(f.path@), f.items@);
        lemma_items_structs(f.path@, f.items@);
        let rest = files_functions(init);
        let last = items_functions(f.path@, file_module_path(f.path@), f.items@);
        let ds = analysis_of(files).functions;
        assert forall|i: int| 0 <= i < ds.len() implies {
            let d = #[trigger] ds[i];
            calls_meaningful(d) && source_path(d.file) && exists|k: int| 0 <= k < files.len() && files[k].path@ == d.file
        } by {
            if i < rest.len() {
                assert(ds[i] == rest[i]);
                assert(analysis_of(init).functions[i] == rest[i]);
                let k = choose|k: int| 0 <= k < init.len() && init[k].path@ == rest[i].file;
                assert(files[k] == init[k]);
            } else {
                assert(ds[i] == last[i - rest.len()]);
                assert(files[files.len() - 1] == f);
            }
        }
        let srest = files_structs(init);
        let slast = items_structs(f.path@, f.items@);
        let ss = analysis_of(files).structs;
        assert forall|i: int| 0 <= i < ss.len() implies {
            let s = #[trigger] ss[i];
            source_path(s.file) && exists|k: int| 0 <= k < files.len() && files[k].path@ == s.file
        } by {
            if i < srest.len() {
                assert(ss[i] == srest[i]);
                assert(analysis_of(init).structs[i] == srest[i]);
                let k = choose|k: int| 0 <= k < init.len() && init[k].path@ == srest[i].file;
                assert(files[k] == init[k]);
            } else {
                assert(ss[i] == slast[i - srest.len()]);
                assert(files[files.len() - 1] == f);
            }
        }
    }
}

/// A qualified name is the bare name at the crate root, and otherwise the
/// enclosing path, `::`, then the name.
pub proof fn law_qualified_name_shape(scope: Seq<Seq<char>>, name: Seq<char>)
    ensures
        qualified_name(scope, name) == if scope.len() == 0 {
            name
        } else {
            join(scope, "::"@) + "::"@ + name
        },
{
    assert(scope.push(name).drop_last() =~= scope);
}

proof fn lemma_method_decls_in_order(scope: Seq<Seq<char>>, methods: Seq<RawFn>, file: Seq<char>)
    ensures
        method_decls(scope, methods, file).len() == methods.len(),
        forall|j: int| 0 <= j < methods.len() ==> #[trigger] method_decls(scope, methods, file)[j] == decl_of(
            methods[j],
            scope,
            file,
        ),
    decreases methods.len(),
{
    if methods.len() > 0 {
        lemma_method_decls_in_order(scope, methods.drop_last(), file);
        let ds = method_decls(scope, methods, file);
        assert forall|j: int| 0 <= j < methods.len() implies #[trigger] ds[j] == decl_of(methods[j], scope, file) by {
            if j < methods.len() - 1 {
                assert(ds[j] == method_decls(scope, methods.drop_last(), file)[j]);
                assert(methods.drop_last()[j] == methods[j]);
            }
        }
    }
}

/// Recording an `impl` block appends one record per method, in order: the
/// record of method `j` under the block's enclosing path (its modules, then
/// its type), in the block's file, with meaningful calls only.
pub proof fn law_impl_methods_in_order(
    file: Seq<char>,
    fm: Seq<Seq<char>>,
    module: Vec<String>,
    self_ty: Option<Vec<String>>,
    methods: Vec<RawFn>,
)
    ensures
        ({
            let ds = item_functions(file, fm, SourceItem::Impl { module, self_ty, methods });
            let scope = fm + strings_view(module@) + impl_parts(self_ty);
            &&& ds.len() == methods@.len()
            &&& forall|j: int| 0 <= j < ds.len() ==> {
                let d = #[trigger] ds[j];
                &&& d == decl_of(methods@[j], scope, file)
                &&& d.full_name == qualified_name(scope, methods@[j].name@)
                &&& d.file == file
                &&& calls_meaningful(d)
            }
        }),
{
    let scope = fm + strings_view(module@) + impl_parts(self_ty);
    lemma_method_decls_in_order(scope, methods@, file);
    lemma_method_decls(scope, methods@, file);
}

/// Recording a free function appends exactly its own record: under its
/// enclosing modules, in its file, with meaningful calls only.
pub proof fn law_function_item_record(file: Seq<char>, fm: Seq<Seq<char>>, module: Vec<String>, f: RawFn)
    ensures
        ({
            let ds = item_functions(file, fm, SourceItem::Function { module, f });
            let scope = fm + strings_view(module@);
            &&& ds.len() == 1
            &&& ds[0] == decl_of(f, scope, file)
            &&& ds[0].full_name == qualified_name(scope, f.name@)
            &&& ds[0].file == file
            &&& calls_meaningful(ds[0])
        }),
{
    law_recorded_calls_are_meaningful(call_names(f.calls@));
}

/// The analysis of a crate is the analysis of its first files followed by
/// that of the rest.
pub proof fn law_analysis_concatenates(first: Seq<SourceFile>, rest: Seq<SourceFile>)
    ensures
        analysis_of(first + rest).structs == analysis_of(first).structs + analysis_of(rest).structs,
        analysis_of(first + rest).functions == analysis_of(first).functions + analysis_of(rest).functions,
    decreases rest.len(),
{
    if rest.len() == 0 {
        assert(first + rest =~= first);
        assert(analysis_of(first).structs + analysis_of(rest).structs =~= analysis_of(first).structs);
        assert(analysis_of(first).functions + analysis_of(rest).functions =~= analysis_of(first).functions);
    } else {
        law_analysis_concatenates(first, rest.drop_last());
        assert((first + rest).drop_last() =~= first + rest.drop_last());
        assert((first + rest).last() == rest.last());
        assert(files_structs(first + rest) =~= files_structs(first) + files_structs(rest));
        assert(files_functions(first + rest) =~= files_functions(first) + files_functions(rest));
    }
}

/// Every function of the document copies its analysis record: the full name,
/// file, line, return type, documentation and attribute list as they are, the
/// parameter list where it is not empty (and nothing where it is), and one
/// call per recorded call.
pub proof fn law_function_records_are_copied(fs: Seq<FunctionDeclView>)
    ensures
        yaml_functions(fs).len() == fs.len(),
        forall|i: int| 0 <= i < fs.len() ==> {
            let y = #[trigger] yaml_functions(fs)[i];
            let f = fs[i];
            &&& y.name == f.full_name
            &&& y.file == f.file
            &&& y.line == f.line
            &&& y.returns == f.returns
            &&& y.docstring == f.docstring
            &&& y.attributes == f.attributes
            &&& (f.parameters.len() == 0 ==> y.parameters is None)
            &&& (f.parameters.len() > 0 ==> y.parameters == Some(f.parameters))
            &&& y.calls.len() == f.calls.len()
        },
{
}

/// The document of a project has format version `1.0`, no project name, and
/// one subproject per crate, in order: each with the crate's name and root,
/// its structs as analysed, and one record per analysed function, in order,
/// copied from the analysis.
pub proof fn law_document_copies_the_analysis(subs: Seq<SubprojectAnalysisView>)
    ensures
        yaml_output_of(subs).version == "1.0"@,
        yaml_output_of(subs).project_name is None,
        yaml_output_of(subs).subprojects.len() == subs.len(),
        forall|k: int| 0 <= k < subs.len() ==> {
            let y = #[trigger] yaml_output_of(subs).subprojects[k];
            let a = subs[k];
            &&& y.name == a.name
            &&& y.root == a.root
            &&& y.structures == a.analysis.structs
            &&& y.functions.len() == a.analysis.functions.len()
            &&& forall|i: int| 0 <= i < y.functions.len() ==> {
                let g = #[trigger] y.functions[i];
                let f = a.analysis.functions[i];
                &&& g.name == f.full_name
                &&& g.file == f.file
                &&& g.line == f.line
                &&& g.returns == f.returns
                &&& g.docstring == f.docstring
                &&& g.attributes == f.attributes
                &&& (f.parameters.len() == 0 ==> g.parameters is None)
                &&& (f.parameters.len() > 0 ==> g.parameters == Some(f.parameters))
                &&& g.calls.len() == f.calls.len()
            }
        },
{
    assert forall|k: int| 0 <= k < subs.len() implies {
        let y = #[trigger] yaml_output_of(subs).subprojects[k];
        let a = subs[k];
        &&& y.name == a.name
        &&& y.root == a.root
        &&& y.structures == a.analysis.structs
        &&& y.functions.len() == a.analysis.functions.len()
        &&& forall|i: int| 0 <= i < y.functions.len() ==> {
            let g = #[trigger] y.functions[i];
            let f = a.analysis.functions[i];
            &&& g.name == f.full_name
            &&& g.file == f.file
            &&& g.line == f.line
            &&& g.returns == f.returns
            &&& g.docstring == f.docstring
            &&& g.attributes == f.attributes
            &&& (f.parameters.len() == 0 ==> g.parameters is None)
            &&& (f.parameters.len() > 0 ==> g.parameters == Some(f.parameters))
            &&& g.calls.len() == f.calls.len()
        }
    } by {
        law_function_records_are_copied(subs[k].analysis.functions);
    }
}

/// An attribute that carries a documentation line: a `doc` attribute with a string.
pub open spec fn carries_doc_line(a: RawAttr) -> bool {
    is_doc_attribute(a) && a.doc_text is Some
}

proof fn lemma_doc_lines_filter(attrs: Seq<RawAttr>)
    ensures
        doc_lines(attrs) == attrs.filter(|a: RawAttr| carries_doc_line(a)).map_values(
            |a: RawAttr| strip_doc_prefix(a.doc_text->0@),
        ),
    decreases attrs.len(),
{
    reveal(Seq::filter);
    if attrs.len() > 0 {
        lemma_doc_lines_filter(attrs.drop_last());
        let rest = attrs.drop_last().filter(|a: RawAttr| carries_doc_line(a));
        if carries_doc_line(attrs.last()) {
            assert(rest.push(attrs.last()).map_values(|a: RawAttr| strip_doc_prefix(a.doc_text->0@))
                =~= rest.map_values(|a: RawAttr| strip_doc_prefix(a.doc_text->0@)).push(
                strip_doc_prefix(attrs.last().doc_text->0@),
            ));
        }
    }
}

/// The documentation of a function holds every documentation line, blank
/// ones included, in order: the texts of its documentation attributes, each
/// without the space that follows `///`, joined by newlines; none where it
/// has no documentation attribute. Other attributes play no part.
pub proof fn law_docstring_holds_every_line(attrs: Seq<RawAttr>)
    ensures
        ({
            let docs = attrs.filter(|a: RawAttr| carries_doc_line(a));
            docstring_text(attrs) == if docs.len() == 0 {
                None
            } else {
                Some(join(docs.map_values(|a: RawAttr| strip_doc_prefix(a.doc_text->0@)), "\n"@))
            }
        }),
{
    lemma_doc_lines_filter(attrs);
}

/// Where every attribute is a documentation line, the documentation is all
/// of them, each without the space after `///`, joined by newlines: one line
/// per attribute.
pub proof fn law_docstring_of_doc_comment(attrs: Seq<RawAttr>)
    requires
        attrs.len() > 0,
        forall|i: int| 0 <= i < attrs.len() ==> carries_doc_line(#[trigger] attrs[i]),
    ensures
        docstring_text(attrs) == Some(
            join(attrs.map_values(|a: RawAttr| strip_doc_prefix(a.doc_text->0@)), "\n"@),
        ),
{
    lemma_doc_lines_all(attrs);
}

proof fn lemma_doc_lines_all(attrs: Seq<RawAttr>)
    requires
        forall|i: int| 0 <= i < attrs.len() ==> carries_doc_line(#[trigger] attrs[i]),
    ensures
        doc_lines(attrs) == attrs.map_values(|a: RawAttr| strip_doc_prefix(a.doc_text->0@)),
    decreases attrs.len(),
{
    if attrs.len() > 0 {
        assert forall|i: int| 0 <= i < attrs.drop_last().len() implies carries_doc_line(#[trigger] attrs.drop_last()[i]) by {
            assert(attrs.drop_last()[i] == attrs[i]);
        }
        lemma_doc_lines_all(attrs.drop_last());
        assert(carries_doc_line(attrs[attrs.len() - 1]));
        assert(attrs.map_values(|a: RawAttr| strip_doc_prefix(a.doc_text->0@)) =~= attrs.drop_last().map_values(
            |a: RawAttr| strip_doc_prefix(a.doc_text->0@),
        ).push(strip_doc_prefix(attrs.last().doc_text->0@)));
    }
}

/// A documentation line loses its first character exactly when that is a
/// space, and nothing else.
pub proof fn law_doc_prefix_is_one_space(line: Seq<char>)
    ensures
        line.len() > 0 && line[0] == ' ' ==> seq![' '] + strip_doc_prefix(line) == line,
        !(line.len() > 0 && line[0] == ' ') ==> strip_doc_prefix(line) == line,
{
    if line.len() > 0 && line[0] == ' ' {
        assert(seq![' '] + line.drop_first() =~= line);
    }
}

/// Joining puts the separator between consecutive parts and nowhere else:
/// nothing for no parts, the part itself for one, and one more part is
/// appended after the separator.
pub proof fn law_join_separates_parts(parts: Seq<Seq<char>>, sep: Seq<char>, x: Seq<char>)
    ensures
        join(Seq::empty(), sep) == Seq::<char>::empty(),
        join(seq![x], sep) == x,
        parts.len() > 0 ==> join(parts.push(x), sep) == join(parts, sep) + sep + x,
{
    assert(parts.push(x).drop_last() =~= parts);
}

/// An attribute that the attribute list records: one that is not
/// documentation and has a path.
pub open spec fn recorded_attribute(a: RawAttr) -> bool {
    !is_doc_attribute(a) && a.segments@.len() > 0
}

proof fn lemma_marks_filter(attrs: Seq<RawAttr>)
    ensures
        attribute_marks(attrs) == attrs.filter(|a: RawAttr| recorded_attribute(a)).map_values(
            |a: RawAttr| attribute_mark(a),
        ),
    decreases attrs.len(),
{
    reveal(Seq::filter);
    if attrs.len() > 0 {
        lemma_marks_filter(attrs.drop_last());
        let rest = attrs.drop_last().filter(|a: RawAttr| recorded_attribute(a));
        if recorded_attribute(attrs.last()) {
            assert(rest.push(attrs.last()).map_values(|a: RawAttr| attribute_mark(a)) =~= rest.map_values(
                |a: RawAttr| attribute_mark(a),
            ).push(attribute_mark(attrs.last())));
        }
    }
}

/// The attribute list of a function holds no documentation: it is the mark
/// of each other attribute that has a path, in the order written, followed
/// by the declared qualifiers.
pub proof fn law_attribute_list_leaves_out_documentation(f: RawFn)
    ensures
        attributes_of(f) == f.attrs@.filter(|a: RawAttr| recorded_attribute(a)).map_values(
            |a: RawAttr| attribute_mark(a),
        ) + qualifier_marks(f),
{
    lemma_marks_filter(f.attrs@);
}

proof fn lemma_marks_start_with_hash(attrs: Seq<RawAttr>)
    ensures
        forall|i: int| 0 <= i < attribute_marks(attrs).len() ==> {
            let m = #[trigger] attribute_marks(attrs)[i];
            m.len() > 0 && m[0] == '#'
        },
    decreases attrs.len(),
{
    reveal_strlit("#[");
    if attrs.len() > 0 {
        lemma_marks_start_with_hash(attrs.drop_last());
        let rest = attribute_marks(attrs.drop_last());
        let a = attrs.last();
        if !is_doc_attribute(a) && a.segments@.len() > 0 {
            let t1 = "#["@ + a.segments@.last()@;
            let t2 = t1 + match a.list_args {
                Some(x) => x@,
                None => Seq::empty(),
            };
            let t3 = t2 + match a.value {
                Some(v) => " = "@ + v@,
                None => Seq::empty(),
            };
            let m = t3 + "]"@;
            assert(t1[0] == '#');
            assert(t2[0] == '#');
            assert(t3[0] == '#');
            assert(m == attribute_mark(a));
            assert(m[0] == '#');
            assert forall|i: int| 0 <= i < attribute_marks(attrs).len() implies {
                let n = #[trigger] attribute_marks(attrs)[i];
                n.len() > 0 && n[0] == '#'
            } by {
                if i < rest.len() {
                    assert(attribute_marks(attrs)[i] == rest[i]);
                }
            }
        }
    }
}

proof fn lemma_qualifier_words(f: RawFn, w: Seq<char>)
    ensures
        qualifier_marks(f).contains(w) <==> (f.is_pub && w == "pub"@) || (f.is_async && w == "async"@)
            || (f.is_unsafe && w == "unsafe"@) || (f.is_const && w == "const"@),
{
    let p1: Seq<Seq<char>> = if f.is_pub { seq!["pub"@] } else { Seq::empty() };
    let p2: Seq<Seq<char>> = if f.is_async { seq!["async"@] } else { Seq::empty() };
    let p3: Seq<Seq<char>> = if f.is_unsafe { seq!["unsafe"@] } else { Seq::empty() };
    let p4: Seq<Seq<char>> = if f.is_const { seq!["const"@] } else { Seq::empty() };
    let q = qualifier_marks(f);
    assert(q == p1 + p2 + p3 + p4);
    if q.contains(w) {
        let k = choose|k: int| 0 <= k < q.len() && q[k] == w;
        if k < p1.len() {
            assert(q[k] == p1[k]);
        } else if k < p1.len() + p2.len() {
            assert(q[k] == p2[k - p1.len()]);
        } else if k < p1.len() + p2.len() + p3.len() {
            assert(q[k] == p3[k - p1.len() - p2.len()]);
        } else {
            assert(q[k] == p4[k - p1.len() - p2.len() - p3.len()]);
        }
    }
    if f.is_pub && w == "pub"@ {
        assert(q[0] == w);
    }
    if f.is_async && w == "async"@ {
        assert(q[p1.len() as int] == w);
    }
    if f.is_unsafe && w == "unsafe"@ {
        assert(q[(p1.len() + p2.len()) as int] == w);
    }
    if f.is_const && w == "const"@ {
        assert(q[(p1.len() + p2.len() + p3.len()) as int] == w);
    }
}

proof fn lemma_qualifier_recorded(f: RawFn, w: Seq<char>)
    requires
        w.len() > 0,
        w[0] != '#',
    ensures
        attributes_of(f).contains(w) <==> qualifier_marks(f).contains(w),
{
    lemma_marks_start_with_hash(f.attrs@);
    let marks = attribute_marks(f.attrs@);
    let q = qualifier_marks(f);
    let all = attributes_of(f);
    if all.contains(w) {
        let k = choose|k: int| 0 <= k < all.len() && all[k] == w;
        if k < marks.len() {
            assert(all[k] == marks[k]);
        } else {
            assert(q[k - marks.len()] == w);
        }
    }
    if q.contains(w) {
        let k = choose|k: int| 0 <= k < q.len() && q[k] == w;
        assert(all[k + marks.len()] == w);
    }
}

/// Each qualifier is recorded exactly when the function declares it,
/// whatever the others and the `#[..]` attributes: `pub`, `async`, `unsafe`
/// and `const` each appear in the attribute list if and only if declared.
pub proof fn law_qualifiers_recorded_when_declared(f: RawFn)
    ensures
        attributes_of(f).contains("pub"@) <==> f.is_pub,
        attributes_of(f).contains("async"@) <==> f.is_async,
        attributes_of(f).contains("unsafe"@) <==> f.is_unsafe,
        attributes_of(f).contains("const"@) <==> f.is_const,
{
    reveal_strlit("pub");
    reveal_strlit("async");
    reveal_strlit("unsafe");
    reveal_strlit("const");
    assert("pub"@.len() == 3 && "async"@.len() == 5 && "unsafe"@.len() == 6 && "const"@.len() == 5);
    assert("async"@[0] != "const"@[0]);
    lemma_qualifier_recorded(f, "pub"@);
    lemma_qualifier_recorded(f, "async"@);
    lemma_qualifier_recorded(f, "unsafe"@);
    lemma_qualifier_recorded(f, "const"@);
    lemma_qualifier_words(f, "pub"@);
    lemma_qualifier_words(f, "async"@);
    lemma_qualifier_words(f, "unsafe"@);
    lemma_qualifier_words(f, "const"@);
}

/// The project root is a crate whenever its manifest declares a package, and
/// it is the only crate where there are no workspace members; the members
/// come first, in order, and a workspace root without a package adds nothing.
pub proof fn law_root_package_is_a_crate(members: Seq<Seq<char>>, root_is_package: bool)
    ensures
        root_is_package ==> crate_roots(members, root_is_package).contains("."@),
        members.len() == 0 ==> crate_roots(members, root_is_package) == seq!["."@],
        crate_roots(members, root_is_package).take(members.len() as int) == members,
        !root_is_package && members.len() > 0 ==> crate_roots(members, root_is_package) == members,
        root_is_package ==> crate_roots(members, root_is_package) == members.push("."@),
{
    let r = crate_roots(members, root_is_package);
    if root_is_package || members.len() == 0 {
        assert(r[members.len() as int] == "."@);
        assert(r.take(members.len() as int) =~= members);
    } else {
        assert(r.take(members.len() as int) =~= members);
    }
    if members.len() == 0 {
        assert(r =~= seq!["."@]);
    }
}

/// A walk skips, with everything below it, every hidden entry (a name that
/// starts with `.`) and the build and output directories `target`, `.git`,
/// `node_modules`, `dist` and `build`, and enters every other directory.
pub proof fn law_walk_skips_listed_directories(name: Seq<char>)
    ensures
        ({
            let skipped = seq!["target"@, ".git"@, "node_modules"@, "dist"@, "build"@];
            &&& (skipped_entry(name) <==> (name.len() > 0 && name[0] == '.') || skipped.contains(name))
            &&& forall|i: int| 0 <= i < skipped.len() ==> skipped_entry(#[trigger] skipped[i])
        }),
{
    let skipped = seq!["target"@, ".git"@, "node_modules"@, "dist"@, "build"@];
    assert(skipped =~= skipped_names());
}

/// Which names are recorded as calls: never an empty name nor a noise word,
/// never a one- or two-letter name of ASCII lowercase letters; a longer name
/// of ASCII lowercase letters that is not noise is recorded exactly when its
/// first letter is alphabetic; a name that is not noise and holds a `::`
/// path separator is always recorded.
pub proof fn law_meaningful_names(name: Seq<char>)
    ensures
        name.len() == 0 ==> !is_meaningful(name),
        is_noise(name) ==> !is_meaningful(name),
        name.len() <= 2 && all_ascii_lowercase(name) ==> !is_meaningful(name),
        name.len() >= 3 && all_ascii_lowercase(name) && !is_noise(name) ==> (is_meaningful(name)
            <==> unicode_alphabetic(name[0])),
        name.len() > 0 && !is_noise(name) && has_path_separator(name) ==> is_meaningful(name),
        name.len() > 0 && !is_noise(name) && name[0] == '_' ==> is_meaningful(name),
{
    if all_ascii_lowercase(name) {
        assert(vstd::utf8::is_ascii_chars(name));
        vstd::utf8::is_ascii_chars_encode_utf8(name);
    }
    if name.len() > 0 && name[0] == '_' {
        assert(!all_ascii_lowercase(name));
    }
    if has_path_separator(name) {
        let i = choose|i: int| #[trigger] separator_at(name, i);
        assert(!('a' <= name[i] <= 'z'));
    }
}

} // verus!
