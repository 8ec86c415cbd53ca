//! From parsed source files to the declarations of a crate.

use vstd::prelude::*;
use vstd::string::*;
use crate::model::{RawFn, SourceFile, SourceItem};
use crate::text::{
    chars_end_with, chars_of, clone_strings, ends_with, split_at_char, split_on, str_equal,
    strings_view,
};
use crate::data::{AnalysisResult, AnalysisView, FunctionDecl, FunctionDeclView, StructDecl, StructDeclView};
use crate::extract::{decl_of, function_decl};
use crate::walk::{is_source_path, source_path};

verus! {

/// The path components with `.rs` taken off the last one.
pub open spec fn strip_rs(comps: Seq<Seq<char>>) -> Seq<Seq<char>> {
    if comps.len() > 0 && ends_with(comps.last(), ".rs"@) {
        comps.update(comps.len() - 1, comps.last().take(comps.last().len() - 3))
    } else {
        comps
    }
}

/// The module path of a source file, from its path relative to its crate's
/// root: the path's components without `.rs`, without a leading `src`,
/// without a last `mod`; `src/lib.rs` and `src/main.rs` are the crate root.
/// (`src/auth/token.rs` is `auth::token`, `src/bin/tool.rs` is `bin::tool`.)
pub open spec fn file_module_path(path: Seq<char>) -> Seq<Seq<char>> {
    let c1 = strip_rs(split_at_char(path, '/'));
    let c2 = if c1.len() > 0 && c1[0] == "src"@ {
        c1.drop_first()
    } else {
        c1
    };
    let c3 = if c2 == seq!["lib"@] || c2 == seq!["main"@] {
        Seq::empty()
    } else {
        c2
    };
    if c3.len() > 0 && c3.last() == "mod"@ {
        c3.drop_last()
    } else {
        c3
    }
}

/// The path parts that an `impl` block adds to the scope of its methods: the
/// implementing type's path, or `UnknownType` where the type is not a path.
pub open spec fn impl_parts(self_ty: Option<Vec<String>>) -> Seq<Seq<char>> {
    match self_ty {
        Some(segs) => strings_view(segs@),
        None => seq!["UnknownType"@],
    }
}

/// The records of an `impl` block's methods, in order.
pub open spec fn method_decls(scope: Seq<Seq<char>>, methods: Seq<RawFn>, file: Seq<char>) -> Seq<FunctionDeclView>
    decreases methods.len(),
{
    if methods.len() == 0 {
        Seq::empty()
    } else {
        method_decls(scope, methods.drop_last(), file).push(decl_of(methods.last(), scope, file))
    }
}

/// The struct records of one item.
pub open spec fn item_structs(file: Seq<char>, item: SourceItem) -> Seq<StructDeclView> {
    match item {
        SourceItem::Struct { name, line, .. } => seq![StructDeclView { name: name@, file, line }],
        _ => Seq::empty(),
    }
}

/// The function records of one item of a file whose module path is `fm`: a
/// free function enclosed by its modules, each method of an `impl` block
/// enclosed by its modules and its type.
pub open spec fn item_functions(file: Seq<char>, fm: Seq<Seq<char>>, item: SourceItem) -> Seq<FunctionDeclView> {
    match item {
        SourceItem::Struct { .. } => Seq::empty(),
        SourceItem::Function { module, f } => seq![decl_of(f, fm + strings_view(module@), file)],
        SourceItem::Impl { module, self_ty, methods } => method_decls(
            fm + strings_view(module@) + impl_parts(self_ty),
            methods@,
            file,
        ),
    }
}

/// The struct records of a file's items, in walk order.
pub open spec fn items_structs(file: Seq<char>, items: Seq<SourceItem>) -> Seq<StructDeclView>
    decreases items.len(),
{
    if items.len() == 0 {
        Seq::empty()
    } else {
        items_structs(file, items.drop_last()) + item_structs(file, items.last())
    }
}

/// The function records of a file's items, in walk order.
pub open spec fn items_functions(file: Seq<char>, fm: Seq<Seq<char>>, items: Seq<SourceItem>) -> Seq<FunctionDeclView>
    decreases items.len(),
{
    if items.len() == 0 {
        Seq::empty()
    } else {
        items_functions(file, fm, items.drop_last()) + item_functions(file, fm, items.last())
    }
}

/// The struct records of a crate: file after file, of the files whose path
/// a walk of the crate analyzes.
pub open spec fn files_structs(files: Seq<SourceFile>) -> Seq<StructDeclView>
    decreases files.len(),
{
    if files.len() == 0 {
        Seq::empty()
    } else {
        let f = files.last();
        files_structs(files.drop_last()) + if source_path(f.path@) {
            items_structs(f.path@, f.items@)
        } else {
            Seq::empty()
        }
    }
}

/// The function records of a crate: file after file, of the files whose
/// path a walk of the crate analyzes.
pub open spec fn files_functions(files: Seq<SourceFile>) -> Seq<FunctionDeclView>
    decreases files.len(),
{
    if files.len() == 0 {
        Seq::empty()
    } else {
        let f = files.last();
        files_functions(files.drop_last()) + if source_path(f.path@) {
            items_functions(f.path@, file_module_path(f.path@), f.items@)
        } else {
            Seq::empty()
        }
    }
}

/// The analysis of a crate made of `files`.
pub open spec fn analysis_of(files: Seq<SourceFile>) -> AnalysisView {
    AnalysisView { structs: files_structs(files), functions: files_functions(files) }
}

/// Spec view of a sequence of struct records.
pub open spec fn struct_views(v: Seq<StructDecl>) -> Seq<StructDeclView> {
    v.map_values(|s: StructDecl| s@)
}

/// Spec view of a sequence of function records.
pub open spec fn function_views(v: Seq<FunctionDecl>) -> Seq<FunctionDeclView> {
    v.map_values(|f: FunctionDecl| f@)
}

/// The module path of a source file (see [`file_module_path`]).
pub fn module_path_of_file(path: &str) -> (r: Vec<String>)
    ensures
        strings_view(r@) == file_module_path(path@),
{
    let mut c = split_on(path, '/');
    let ghost c0 = strings_view(c@);
    if c.len() > 0 {
        let k: usize = c.len() - 1;
        let last_chars = chars_of(c[k].as_str());
        if chars_end_with(&last_chars, ".rs") {
            proof {
                reveal_strlit(".rs");
            }
            let stem = String::from_str(c[k].as_str().substring_char(0, last_chars.len() - 3));
            c.set(k, stem);
            assert(strings_view(c@) =~= strip_rs(c0));
        } else {
            assert(strings_view(c@) =~= strip_rs(c0));
        }
    } else {
        assert(strings_view(c@) =~= strip_rs(c0));
    }
    let ghost c1 = strings_view(c@);
    let mut start: usize = 0;
    if c.len() > 0 && str_equal(c[0].as_str(), "src") {
        start = 1;
    }
    let mut d: Vec<String> = Vec::new();
    let mut i: usize = start;
    while i < c.len()
        invariant
            c1 == strings_view(c@),
            start <= i <= c.len(),
            strings_view(d@) == c1.subrange(start as int, i as int),
        decreases c.len() - i,
    {
        let ghost before = strings_view(d@);
        d.push(c[i].clone());
        assert(strings_view(d@) =~= before.push(c1[i as int]));
        assert(c1.subrange(start as int, i + 1) =~= c1.subrange(start as int, i as int).push(c1[i as int]));
        i = i + 1;
    }
    let ghost c2 = if c1.len() > 0 && c1[0] == "src"@ {
        c1.drop_first()
    } else {
        c1
    };
    assert(strings_view(d@) =~= c2);
    if d.len() == 1 && (str_equal(d[0].as_str(), "lib") || str_equal(d[0].as_str(), "main")) {
        assert(c2 =~= seq![d@[0]@]);
        d = Vec::new();
        proof {
            assert(strings_view(d@) =~= Seq::<Seq<char>>::empty());
        }
    } else {
        proof {
            if c2 == seq!["lib"@] {
                assert(c2[0] == "lib"@);
                assert(strings_view(d@)[0] == d@[0]@);
            }
            if c2 == seq!["main"@] {
                assert(c2[0] == "main"@);
                assert(strings_view(d@)[0] == d@[0]@);
            }
        }
    }
    let ghost c3 = strings_view(d@);
    assert(c3 == (if c2 == seq!["lib"@] || c2 == seq!["main"@] {
        Seq::<Seq<char>>::empty()
    } else {
        c2
    }));
    assert(c1 == strip_rs(split_at_char(path@, '/')));
    if d.len() > 0 && str_equal(d[d.len() - 1].as_str(), "mod") {
        d.pop();
        assert(strings_view(d@) =~= c3.drop_last());
    }
    d
}

/// Records the declarations of one item met in the file `file`, whose module
/// path is `file_mod`.
pub fn visit_item(
    file: &String,
    file_mod: &Vec<String>,
    item: &SourceItem,
    structs: &mut Vec<StructDecl>,
    functions: &mut Vec<FunctionDecl>,
)
    ensures
        struct_views(final(structs)@) == struct_views(old(structs)@) + item_structs(file@, *item),
        function_views(final(functions)@) == function_views(old(functions)@) + item_functions(
            file@,
            strings_view(file_mod@),
            *item,
        ),
{
    let ghost fm = strings_view(file_mod@);
    match item {
        SourceItem::Struct { name, line, .. } => {
            structs.push(StructDecl { name: name.clone(), file: file.clone(), line: *line });
            assert(struct_views(structs@) =~= struct_views(old(structs)@) + item_structs(file@, *item));
            assert(function_views(functions@) =~= function_views(old(functions)@) + item_functions(file@, fm, *item));
        },
        SourceItem::Function { module, f } => {
            let scope = concat_strings(file_mod, module);
            let d = function_decl(f, scope, file.clone());
            functions.push(d);
            assert(struct_views(structs@) =~= struct_views(old(structs)@) + item_structs(file@, *item));
            assert(function_views(functions@) =~= function_views(old(functions)@) + item_functions(file@, fm, *item));
        },
        SourceItem::Impl { module, self_ty, methods } => {
            let outer = concat_strings(file_mod, module);
            let scope = match self_ty {
                Some(segs) => concat_strings(&outer, segs),
                None => {
                    let mut s = clone_strings(&outer);
                    let ghost before = strings_view(s@);
                    s.push(String::from_str("UnknownType"));
                    assert(strings_view(s@) =~= before + seq!["UnknownType"@]);
                    s
                },
            };
            let ghost sc = strings_view(scope@);
            assert(sc == fm + strings_view(module@) + impl_parts(*self_ty));
            let ghost start = function_views(functions@);
            let mut i: usize = 0;
            while i < methods.len()
                invariant
                    i <= methods.len(),
                    sc == strings_view(scope@),
                    function_views(functions@) == start + method_decls(sc, methods@.take(i as int), file@),
                decreases methods.len() - i,
            {
                let m = &methods[i];
                let d = function_decl(m, clone_strings(&scope), file.clone());
                let ghost before = function_views(functions@);
                functions.push(d);
                assert(function_views(functions@) =~= before.push(d@));
                assert(methods@.take(i + 1).drop_last() =~= methods@.take(i as int));
                assert(methods@.take(i + 1).last() == *m);
                assert(function_views(functions@) =~= start + method_decls(sc, methods@.take(i + 1), file@));
                i = i + 1;
            }
            assert(methods@.take(methods.len() as int) =~= methods@);
            assert(struct_views(structs@) =~= struct_views(old(structs)@) + item_structs(file@, *item));
        },
    }
}

/// The strings of `a` followed by those of `b`.
fn concat_strings(a: &Vec<String>, b: &Vec<String>) -> (r: Vec<String>)
    ensures
        strings_view(r@) == strings_view(a@) + strings_view(b@),
{
    let mut r = clone_strings(a);
    let mut i: usize = 0;
    while i < b.len()
        invariant
            i <= b.len(),
            strings_view(r@) == strings_view(a@) + strings_view(b@.take(i as int)),
        decreases b.len() - i,
    {
        let ghost before = strings_view(r@);
        r.push(b[i].clone());
        assert(strings_view(r@) =~= before.push(b@[i as int]@));
        assert(strings_view(b@.take(i + 1)) =~= strings_view(b@.take(i as int)).push(b@[i as int]@));
        i = i + 1;
    }
    assert(b@.take(b.len() as int) =~= b@);
    r
}

/// Records the declarations of a file's items, in walk order.
pub fn visit_items(
    file: &String,
    items: &Vec<SourceItem>,
    structs: &mut Vec<StructDecl>,
    functions: &mut Vec<FunctionDecl>,
)
    ensures
        struct_views(final(structs)@) == struct_views(old(structs)@) + items_structs(file@, items@),
        function_views(final(functions)@) == function_views(old(functions)@) + items_functions(
            file@,
            file_module_path(file@),
            items@,
        ),
{
    let file_mod = module_path_of_file(file.as_str());
    let ghost fm = file_module_path(file@);
    let ghost s0 = struct_views(structs@);
    let ghost f0 = function_views(functions@);
    let mut i: usize = 0;
    while i < items.len()
        invariant
            i <= items.len(),
            strings_view(file_mod@) == fm,
            struct_views(structs@) == s0 + items_structs(file@, items@.take(i as int)),
            function_views(functions@) == f0 + items_functions(file@, fm, items@.take(i as int)),
        decreases items.len() - i,
    {
        visit_item(file, &file_mod, &items[i], structs, functions);
        assert(items@.take(i + 1).drop_last() =~= items@.take(i as int));
        assert(struct_views(structs@) =~= s0 + items_structs(file@, items@.take(i + 1)));
        assert(function_views(functions@) =~= f0 + items_functions(file@, fm, items@.take(i + 1)));
        i = i + 1;
    }
    assert(items@.take(items.len() as int) =~= items@);
}

/// Analyzes a crate given as its parsed source files, and returns the struct
/// and function records of them, file after file; a file whose path a walk of
/// the crate would not analyze (see [`source_path`]) is left out.
pub fn analyze_project(files: &Vec<SourceFile>) -> (r: AnalysisResult)
    ensures
        r@ == analysis_of(files@),
{
    let mut structs: Vec<StructDecl> = Vec::new();
    let mut functions: Vec<FunctionDecl> = Vec::new();
    let mut i: usize = 0;
    while i < files.len()
        invariant
            i <= files.len(),
            struct_views(structs@) == files_structs(files@.take(i as int)),
            function_views(functions@) == files_functions(files@.take(i as int)),
        decreases files.len() - i,
    {
        if is_source_path(files[i].path.as_str()) {
            visit_items(&files[i].path, &files[i].items, &mut structs, &mut functions);
        } else {
            assert(struct_views(structs@) =~= struct_views(structs@) + Seq::<StructDeclView>::empty());
            assert(function_views(functions@) =~= function_views(functions@) + Seq::<FunctionDeclView>::empty());
        }
        assert(files@.take(i + 1).drop_last() =~= files@.take(i as int));
        i = i + 1;
    }
    assert(files@.take(files.len() as int) =~= files@);
    let r = AnalysisResult { structs, functions };
    assert(r@.structs =~= files_structs(files@));
    assert(r@.functions =~= files_functions(files@));
    r
}

} // verus!
