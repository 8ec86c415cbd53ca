use arcella_inspect::calls::{is_meaningful_call, is_noise_call};
use arcella_inspect::extract::{
    collect_calls, extract_attributes_from_fn, extract_attributes_from_impl_method,
    extract_docstring, format_parameters, format_return_type, function_decl, is_doc_attr,
    meaningful_calls, path_to_string,
};
use arcella_inspect::model::{RawAttr, RawCall, RawFn, RawParam};

fn s(x: &str) -> String {
    x.to_string()
}

fn attr(segments: &[&str], doc_text: Option<&str>) -> RawAttr {
    RawAttr {
        leading_colon: false,
        segments: segments.iter().map(|x| s(x)).collect(),
        doc_text: doc_text.map(s),
        list_args: None,
        value: None,
    }
}

#[test]
fn noise_words_are_noise() {
    for w in ["clone", "unwrap", "map", "iter", "new", "Some", "info", "join", "extension", "contains", "info!", "debug!"] {
        assert!(is_noise_call(w), "{}", w);
        assert!(!is_meaningful_call(w), "{}", w);
    }
    assert!(!is_noise_call("process"));
    assert!(!is_noise_call("Clone"));
    assert!(!is_noise_call(""));
    assert!(!is_noise_call("!"));
    assert!(!is_noise_call("println!"));
    assert!(is_meaningful_call("println!"));
    // only the logging macros are noise among macros; names match as a whole
    for m in ["info!", "warn!", "error!", "debug!", "trace!"] {
        assert!(is_noise_call(m), "{}", m);
    }
    for m in ["clone!", "map!", "join!", "log::info!", "info!!"] {
        assert!(!is_noise_call(m), "{}", m);
        assert!(is_meaningful_call(m), "{}", m);
    }
}

#[test]
fn meaningful_call_rules() {
    assert!(!is_meaningful_call(""));
    assert!(!is_meaningful_call("x"));
    assert!(!is_meaningful_call("ab"));
    assert!(is_meaningful_call("abc"));
    assert!(is_meaningful_call("Ab"));
    assert!(is_meaningful_call("_x"));
    assert!(is_meaningful_call("std::mem::swap"));
    assert!(!is_meaningful_call("1abc"));
    assert!(is_meaningful_call("1::x"));
    // a non-ASCII name: two characters but more than two bytes, alphabetic
    assert!(is_meaningful_call("éé"));
    // a character that is not alphabetic
    assert!(!is_meaningful_call("💝x"));
}

#[test]
fn return_type_text() {
    assert_eq!(format_return_type(&None), "()");
    assert_eq!(format_return_type(&Some(s("Result < () , Error >"))), "Result < () , Error >");
    let sixty = "a".repeat(60);
    assert_eq!(format_return_type(&Some(sixty.clone())), sixty);
    assert_eq!(format_return_type(&Some("a".repeat(61))), "> &");
    // 30 two-byte characters are 60 bytes; one more is 62
    assert_eq!(format_return_type(&Some("é".repeat(30))), "é".repeat(30));
    assert_eq!(format_return_type(&Some("é".repeat(31))), "> &");
}

#[test]
fn parameter_texts() {
    let params = vec![
        RawParam::Typed { name: Some(s("x")), ty: s("i32") },
        RawParam::Typed { name: None, ty: s("(u8 , u8)") },
        RawParam::Receiver { reference: false, lifetime: None, mutable: false },
        RawParam::Receiver { reference: false, lifetime: None, mutable: true },
        RawParam::Receiver { reference: true, lifetime: None, mutable: false },
        RawParam::Receiver { reference: true, lifetime: None, mutable: true },
        RawParam::Receiver { reference: true, lifetime: Some(s("'a")), mutable: false },
        RawParam::Receiver { reference: true, lifetime: Some(s("'a")), mutable: true },
    ];
    assert_eq!(
        format_parameters(&params),
        vec![
            s("x: i32"),
            s("_: (u8 , u8)"),
            s("self"),
            s("mut self"),
            s("&self"),
            s("&mut self"),
            s("&'a self"),
            s("&'a mut self"),
        ]
    );
}

#[test]
fn docstring_lines_are_joined() {
    assert_eq!(extract_docstring(&vec![]), None);
    assert_eq!(extract_docstring(&vec![attr(&["test"], None)]), None);
    let attrs = vec![
        attr(&["doc"], Some(" First line.")),
        attr(&["test"], None),
        attr(&["doc"], None),
        attr(&["doc"], Some(" Second line.")),
        RawAttr { leading_colon: true, segments: vec![s("doc")], doc_text: Some(s("ignored")), list_args: None, value: None },
    ];
    assert_eq!(extract_docstring(&attrs).as_deref(), Some("First line.\nSecond line."));
    // only the one space that follows `///` is taken off
    assert_eq!(extract_docstring(&vec![attr(&["doc"], Some("   indented"))]).as_deref(), Some("  indented"));
    assert_eq!(extract_docstring(&vec![attr(&["doc"], Some("no space"))]).as_deref(), Some("no space"));
    assert!(is_doc_attr(&attrs[0]));
    assert!(!is_doc_attr(&attrs[1]));
    assert!(!is_doc_attr(&attrs[4]));
    assert!(!is_doc_attr(&attr(&["a", "doc"], None)));
}

fn raw(attrs: Vec<RawAttr>, is_pub: bool, is_async: bool, is_unsafe: bool, is_const: bool) -> RawFn {
    RawFn {
        name: s("f"),
        line: 1,
        attrs,
        is_pub,
        is_async,
        is_unsafe,
        is_const,
        output: None,
        params: vec![],
        calls: vec![],
    }
}

#[test]
fn attribute_texts() {
    let f = raw(
        vec![attr(&["doc"], Some("d")), attr(&["test"], None), attr(&["tracing", "instrument"], None)],
        true,
        true,
        true,
        true,
    );
    assert_eq!(
        extract_attributes_from_fn(&f),
        vec![s("#[test]"), s("#[instrument]"), s("pub"), s("async"), s("unsafe"), s("const")]
    );
    assert_eq!(
        extract_attributes_from_impl_method(&f),
        vec![s("#[test]"), s("#[instrument]"), s("pub"), s("async"), s("unsafe"), s("const")]
    );
    let mut cfg = attr(&["cfg"], None);
    cfg.list_args = Some(s("(test)"));
    let mut path_attr = attr(&["path"], None);
    path_attr.value = Some(s("\"imp.rs\""));
    let h = raw(vec![cfg, path_attr], false, false, false, false);
    assert_eq!(extract_attributes_from_fn(&h), vec![s("#[cfg(test)]"), s("#[path = \"imp.rs\"]")]);
    let g = raw(vec![], false, false, false, true);
    assert_eq!(extract_attributes_from_fn(&g), vec![s("const")]);
}

#[test]
fn call_names_and_filter() {
    assert_eq!(path_to_string(&vec![s("std"), s("fmt"), s("Display")]), "std::fmt::Display");
    assert_eq!(path_to_string(&vec![]), "");
    let raws = vec![
        RawCall::Path(vec![s("Vec"), s("new")]),
        RawCall::Path(vec![]),
        RawCall::Method(s("unwrap")),
        RawCall::Path(vec![s("Ok")]),
        RawCall::Method(s("ok")),
        RawCall::Method(s("render")),
        RawCall::Macro(vec![s("log"), s("warn")]),
        RawCall::Macro(vec![s("warn")]),
        RawCall::Macro(vec![s("println")]),
    ];
    let names = collect_calls(&raws);
    assert_eq!(
        names,
        vec![s("Vec::new"), s("unwrap"), s("Ok"), s("ok"), s("render"), s("log::warn!"), s("warn!"), s("println!")]
    );
    assert_eq!(meaningful_calls(names), vec![s("Vec::new"), s("render"), s("log::warn!"), s("println!")]);
}

#[test]
fn function_record_fields() {
    let f = RawFn {
        name: s("load"),
        line: 7,
        attrs: vec![attr(&["doc"], Some(" Loads."))],
        is_pub: true,
        is_async: true,
        is_unsafe: false,
        is_const: false,
        output: Some(s("Result<Config, Error>")),
        params: vec![RawParam::Typed { name: Some(s("path")), ty: s("& Path") }],
        calls: vec![RawCall::Path(vec![s("fs"), s("read_to_string")]), RawCall::Method(s("map_err"))],
    };
    let d = function_decl(&f, vec![s("config"), s("Config")], s("src/config.rs"));
    assert_eq!(d.full_name, "config::Config::load");
    assert_eq!(d.file, "src/config.rs");
    assert_eq!(d.line, 7);
    assert_eq!(d.returns, "Result<Config, Error>");
    assert_eq!(d.parameters, vec![s("path: & Path")]);
    assert_eq!(d.docstring.as_deref(), Some("Loads."));
    assert_eq!(d.attributes, vec![s("pub"), s("async")]);
    assert_eq!(d.calls, vec![s("fs::read_to_string")]);
}
