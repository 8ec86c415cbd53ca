use arcella_inspect::model::{RawAttr, RawCall, RawFn, RawParam, SourceFile, SourceItem};
use arcella_inspect::{analyze_project, build_yaml_output, AnalysisResult, SubprojectAnalysis};

fn s(x: &str) -> String {
    x.to_string()
}

fn doc(text: &str) -> RawAttr {
    RawAttr { leading_colon: false, segments: vec![s("doc")], doc_text: Some(s(text)), list_args: None, value: None }
}

fn typed(name: &str, ty: &str) -> RawParam {
    RawParam::Typed { name: Some(s(name)), ty: s(ty) }
}

fn plain_fn(name: &str, line: usize) -> RawFn {
    RawFn {
        name: s(name),
        line,
        attrs: vec![],
        is_pub: false,
        is_async: false,
        is_unsafe: false,
        is_const: false,
        output: None,
        params: vec![],
        calls: vec![],
    }
}

fn free(f: RawFn) -> SourceItem {
    SourceItem::Function { module: vec![], f }
}

fn crate_of(name: &str, root: &str, analysis: AnalysisResult) -> SubprojectAnalysis {
    SubprojectAnalysis { name: s(name), root: s(root), analysis }
}

/// The `add` function of the README's example, as a parse of `src/lib.rs`
/// gives it: `/// Adds two numbers.` carries the text ` Adds two numbers.`.
fn add_fn() -> RawFn {
    RawFn {
        name: s("add"),
        line: 2,
        attrs: vec![doc(" Adds two numbers.")],
        is_pub: true,
        is_async: false,
        is_unsafe: false,
        is_const: false,
        output: Some(s("i32")),
        params: vec![typed("a", "i32"), typed("b", "i32")],
        calls: vec![],
    }
}

#[test]
fn test_simple_lib() {
    let files = vec![SourceFile { path: s("src/lib.rs"), items: vec![free(add_fn())] }];
    let analysis = analyze_project(&files);
    let output = build_yaml_output(&vec![crate_of("simple", ".", analysis)]);
    let functions = &output.subprojects[0].functions;
    assert_eq!(functions.len(), 1);

    let func = &functions[0];
    assert_eq!(func.name, "add");
    assert_eq!(func.parameters.as_ref().unwrap().len(), 2);
    assert_eq!(func.docstring.as_deref(), Some("Adds two numbers."));
}

#[test]
fn readme_example_function_record() {
    let files = vec![SourceFile { path: s("src/lib.rs"), items: vec![free(add_fn())] }];
    let analysis = analyze_project(&files);
    assert_eq!(analysis.structs.len(), 0);
    assert_eq!(analysis.functions.len(), 1);
    let f = &analysis.functions[0];
    assert_eq!(f.full_name, "add");
    assert!(f.scope.is_empty());
    assert_eq!(f.file, "src/lib.rs");
    assert_eq!(f.line, 2);
    assert_eq!(f.returns, "i32");
    assert_eq!(f.parameters, vec![s("a: i32"), s("b: i32")]);
    assert_eq!(f.docstring.as_deref(), Some("Adds two numbers."));
    assert_eq!(f.attributes, vec![s("pub")]);
    assert!(f.calls.is_empty());

    let out = build_yaml_output(&vec![crate_of("my-crate", ".", analysis)]);
    assert_eq!(out.version, "1.0");
    assert!(out.project_name.is_none());
    assert_eq!(out.subprojects.len(), 1);
    assert_eq!(out.subprojects[0].name, "my-crate");
    assert_eq!(out.subprojects[0].root, ".");
}

#[test]
fn names_are_fully_qualified() {
    let mut m = plain_fn("validate", 10);
    m.is_pub = true;
    m.is_async = true;
    m.params = vec![RawParam::Receiver { reference: true, lifetime: None, mutable: false }];
    let items = vec![
        SourceItem::Struct { module: vec![s("my_mod")], name: s("Auth"), line: 3 },
        SourceItem::Impl {
            module: vec![s("my_mod")],
            self_ty: Some(vec![s("Auth")]),
            methods: vec![m, plain_fn("new", 14)],
        },
        SourceItem::Impl { module: vec![], self_ty: None, methods: vec![plain_fn("len", 20)] },
        free(plain_fn("helper", 30)),
    ];
    let files = vec![
        SourceFile { path: s("src/lib.rs"), items },
        SourceFile { path: s("src/main.rs"), items: vec![free(plain_fn("main", 1))] },
        SourceFile { path: s("src/bin/tool.rs"), items: vec![free(plain_fn("main", 1))] },
        SourceFile { path: s("src/net/mod.rs"), items: vec![free(plain_fn("connect", 2))] },
        SourceFile { path: s("src/net/tcp.rs"), items: vec![free(plain_fn("connect", 2))] },
        SourceFile { path: s("build.rs"), items: vec![free(plain_fn("main", 1))] },
        SourceFile { path: s("src/other.rs"), items: vec![SourceItem::Struct { module: vec![], name: s("Other"), line: 1 }] },
    ];
    let analysis = analyze_project(&files);
    let names: Vec<&str> = analysis.functions.iter().map(|f| f.full_name.as_str()).collect();
    assert_eq!(
        names,
        vec![
            "my_mod::Auth::validate",
            "my_mod::Auth::new",
            "UnknownType::len",
            "helper",
            "main",
            "bin::tool::main",
            "net::connect",
            "net::tcp::connect",
            "build::main",
        ]
    );
    assert_eq!(analysis.functions[0].scope, vec![s("my_mod"), s("Auth")]);
    // visibility is recorded for methods too
    assert_eq!(analysis.functions[0].attributes, vec![s("pub"), s("async")]);
    assert_eq!(analysis.functions[0].parameters, vec![s("&self")]);
    assert_eq!(analysis.functions[0].returns, "()");
    let structs: Vec<(&str, &str, usize)> =
        analysis.structs.iter().map(|d| (d.name.as_str(), d.file.as_str(), d.line)).collect();
    assert_eq!(structs, vec![("Auth", "src/lib.rs", 3), ("Other", "src/other.rs", 1)]);
}

#[test]
fn analysis_concatenates_files() {
    let mk = || {
        (
            SourceFile { path: s("src/a.rs"), items: vec![free(plain_fn("f", 1))] },
            SourceFile { path: s("src/b.rs"), items: vec![free(plain_fn("g", 2))] },
        )
    };
    let (a, b) = mk();
    let both = analyze_project(&vec![a, b]);
    let (a2, b2) = mk();
    let first = analyze_project(&vec![a2]);
    let rest = analyze_project(&vec![b2]);
    assert_eq!(both.functions.len(), first.functions.len() + rest.functions.len());
    assert_eq!(both.functions[0].full_name, first.functions[0].full_name);
    assert_eq!(both.functions[1].full_name, rest.functions[0].full_name);
    assert_eq!(both.functions[1].full_name, "b::g");
    assert_eq!(both.functions[1].file, "src/b.rs");
}

#[test]
fn calls_are_resolved_by_exact_full_name() {
    let mut caller = plain_fn("run", 1);
    caller.calls = vec![
        RawCall::Path(vec![s("helper")]),
        RawCall::Path(vec![s("tokio"), s("time"), s("sleep")]),
        RawCall::Method(s("clone")),
        RawCall::Path(vec![s("util"), s("parse")]),
        RawCall::Macro(vec![s("println")]),
        RawCall::Macro(vec![s("info")]),
        RawCall::Path(vec![]),
        RawCall::Path(vec![s("helper")]),
    ];
    let files = vec![
        SourceFile { path: s("src/app.rs"), items: vec![free(caller), free(plain_fn("helper", 5))] },
        SourceFile { path: s("src/lib.rs"), items: vec![free(plain_fn("helper", 9))] },
        SourceFile { path: s("src/lib.rs"), items: vec![free(plain_fn("helper", 12))] },
        SourceFile { path: s("src/util.rs"), items: vec![free(plain_fn("parse", 3))] },
        // a file that a walk would not analyze is left out
        SourceFile { path: s("target/gen.rs"), items: vec![free(plain_fn("generated", 1))] },
    ];
    let analysis = analyze_project(&files);
    assert_eq!(
        analysis.functions[0].calls,
        vec![s("helper"), s("tokio::time::sleep"), s("util::parse"), s("println!"), s("helper")]
    );
    let names: Vec<&str> = analysis.functions.iter().map(|f| f.full_name.as_str()).collect();
    assert_eq!(names, vec!["app::run", "app::helper", "helper", "helper", "util::parse"]);
    let out = build_yaml_output(&vec![crate_of("demo", ".", analysis)]);
    let calls = &out.subprojects[0].functions[0].calls;
    assert_eq!(calls.len(), 5);
    // exact full name `helper`: the last one declared
    assert_eq!(calls[0].name, "helper");
    assert_eq!(calls[0].file.as_deref(), Some("src/lib.rs"));
    assert_eq!(calls[0].line, Some(12));
    assert_eq!(calls[0].external, None);
    assert_eq!(calls[1].name, "tokio::time::sleep");
    assert_eq!(calls[1].file, None);
    assert_eq!(calls[1].line, None);
    assert_eq!(calls[1].external, Some(true));
    assert_eq!(calls[2].name, "util::parse");
    assert_eq!(calls[2].file.as_deref(), Some("src/util.rs"));
    assert_eq!(calls[2].line, Some(3));
    assert_eq!(calls[3].name, "println!");
    assert_eq!(calls[3].external, Some(true));
    assert_eq!(calls[4].name, "helper");
    assert_eq!(calls[4].line, Some(12));
    assert!(out.subprojects[0].functions[0].parameters.is_none());
    assert_eq!(out.subprojects[0].functions.len(), 5);
}

#[test]
fn one_subproject_per_crate() {
    let a = analyze_project(&vec![SourceFile { path: s("src/lib.rs"), items: vec![free(plain_fn("fa", 1))] }]);
    let b = analyze_project(&vec![SourceFile { path: s("src/lib.rs"), items: vec![free(plain_fn("fb", 1))] }]);
    let out = build_yaml_output(&vec![crate_of("a", "crates/a", a), crate_of("b", "crates/b", b)]);
    assert_eq!(out.subprojects.len(), 2);
    assert_eq!((out.subprojects[0].name.as_str(), out.subprojects[0].root.as_str()), ("a", "crates/a"));
    assert_eq!((out.subprojects[1].name.as_str(), out.subprojects[1].root.as_str()), ("b", "crates/b"));
    assert_eq!(out.subprojects[0].functions.len(), 1);
    assert_eq!(out.subprojects[0].functions[0].name, "fa");
    assert_eq!(out.subprojects[1].functions[0].name, "fb");
}
