use arcella_inspect::index::index_functions;
use arcella_inspect::manifest::{crate_name_from_manifest, declares_package, workspace_members};
use arcella_inspect::parse::{is_blank_text, is_white_space, parse_source_text};
use arcella_inspect::workspace::{glob_parent, is_other_crate_root, member_root, subproject_roots};
use arcella_inspect::walk::{is_analyzable_file_name, is_hidden, is_source_path, should_skip_entry};
use arcella_inspect::FunctionDecl;

fn decl(name: &str, file: &str, line: usize) -> FunctionDecl {
    FunctionDecl {
        full_name: name.to_string(),
        scope: vec![],
        file: file.to_string(),
        line,
        returns: "()".to_string(),
        parameters: vec![],
        docstring: None,
        attributes: vec![],
        calls: vec![],
    }
}

#[test]
fn index_finds_the_last_declaration() {
    let fs = vec![decl("a", "x.rs", 1), decl("b", "y.rs", 2), decl("a", "z.rs", 3)];
    let index = index_functions(&fs);
    let a = index.get("a").unwrap();
    assert_eq!((a.file.as_str(), a.line), ("z.rs", 3));
    let b = index.get("b").unwrap();
    assert_eq!((b.file.as_str(), b.line), ("y.rs", 2));
    assert!(index.get("c").is_none());
    assert!(index.get("").is_none());
    assert!(index_functions(&[]).get("a").is_none());
}

#[test]
fn walk_skips_hidden_and_build_directories() {
    for name in [".git", ".env", "target", "node_modules", "dist", "build", "."] {
        assert!(should_skip_entry(name, 1), "{}", name);
        assert!(should_skip_entry(name, 3), "{}", name);
        // the walk's root is never skipped
        assert!(!should_skip_entry(name, 0), "{}", name);
    }
    for name in ["src", "targets", "Build", "lib.rs", ""] {
        assert!(!should_skip_entry(name, 1), "{}", name);
    }
    assert!(is_hidden(".hidden"));
    assert!(!is_hidden("visible"));
    assert!(!is_hidden(""));
}

#[test]
fn analyzable_file_names() {
    assert!(is_analyzable_file_name("lib.rs"));
    assert!(is_analyzable_file_name("a.b.rs"));
    assert!(is_analyzable_file_name("..rs"));
    assert!(!is_analyzable_file_name(".rs"));
    assert!(!is_analyzable_file_name("rs"));
    assert!(!is_analyzable_file_name("lib.rs~"));
    assert!(!is_analyzable_file_name("lib~.rs"));
    assert!(!is_analyzable_file_name("lib.rs.bk"));
    assert!(!is_analyzable_file_name("lib.tmp"));
    assert!(!is_analyzable_file_name("main.py"));
    assert!(!is_analyzable_file_name("README.md"));
}

#[test]
fn crate_name_from_cargo_manifest() {
    let name = |t: &str| crate_name_from_manifest(t);
    assert_eq!(name("[package]\nname = \"auth-service\"\nversion = \"0.1.0\"\n").as_deref(), Some("auth-service"));
    assert_eq!(name("\u{feff}[package]\nname = \"bom\"\n").as_deref(), Some("bom"));
    assert_eq!(name("\u{feff}\u{feff}[package]\nname = \"twice\"\n").as_deref(), Some("twice"));
    assert_eq!(name("[workspace]\nmembers = [\"a\"]\n").as_deref(), Some("unknown"));
    assert_eq!(name("[package]\nversion = \"0.1.0\"\n").as_deref(), Some("unknown"));
    assert_eq!(name("[package]\nname = 3\n").as_deref(), Some("unknown"));
    assert_eq!(name("package = \"x\"\n").as_deref(), Some("unknown"));
    assert_eq!(name("").as_deref(), Some("unknown"));
    // a text that is not TOML gives no name at all
    assert_eq!(name("this is [ not toml"), None);
    assert_eq!(name("[package\nname = \"x\""), None);
}

#[test]
fn workspace_manifest() {
    let ws = "[workspace]\nmembers = [\"crates/a\", \"crates/b\", 3]\n";
    assert_eq!(workspace_members(ws), vec!["crates/a".to_string(), "crates/b".to_string()]);
    assert!(!declares_package(ws));
    let both = "[package]\nname = \"root\"\n[workspace]\nmembers = [\"tools/*\"]\n";
    assert_eq!(workspace_members(both), vec!["tools/*".to_string()]);
    assert!(declares_package(both));
    assert!(workspace_members("[package]\nname = \"x\"\n").is_empty());
    assert!(workspace_members("[workspace]\nmembers = \"a\"\n").is_empty());
    assert!(workspace_members("not toml [").is_empty());
    assert!(!declares_package("package = 1\n"));
}

#[test]
fn workspace_layout() {
    assert_eq!(member_root("crates/a"), "crates/a");
    assert_eq!(member_root("./crates/a/"), "crates/a");
    assert_eq!(member_root("crates/a//"), "crates/a");
    assert_eq!(member_root("./"), ".");
    assert_eq!(member_root(""), ".");
    assert_eq!(glob_parent("crates/*").as_deref(), Some("crates"));
    assert_eq!(glob_parent("crates/a"), None);
    assert_eq!(glob_parent("*"), None);
    let members = vec!["crates/a".to_string(), "crates/b".to_string()];
    assert_eq!(subproject_roots(&members, false), members);
    assert_eq!(
        subproject_roots(&members, true),
        vec!["crates/a".to_string(), "crates/b".to_string(), ".".to_string()]
    );
    assert_eq!(subproject_roots(&vec![], false), vec![".".to_string()]);
    let roots = subproject_roots(&members, true);
    assert!(is_other_crate_root("crates/a", ".", &roots));
    assert!(!is_other_crate_root("crates/a", "crates/a", &roots));
    assert!(!is_other_crate_root("crates", ".", &roots));
}

#[test]
fn source_text_parsing() {
    assert!(is_blank_text(""));
    assert!(is_blank_text(" \n\t\u{a0}\u{3000}\u{2028}"));
    assert!(!is_blank_text("  x "));
    assert!(!is_blank_text("\u{200b}"));
    assert!(parse_source_text("").is_none());
    assert!(parse_source_text("   \n").is_none());
    assert!(parse_source_text("fn (").unwrap().is_err());
    let f = parse_source_text("/// Adds two numbers.\npub fn add(a: i32, b: i32) -> i32 { a + b }\n").unwrap().unwrap();
    assert_eq!(f.items.len(), 1);
}

#[test]
fn white_space_matches_std() {
    for c in ['\u{0}', '\u{8}', '\u{9}', '\u{d}', '\u{e}', ' ', '\u{85}', '\u{a0}', '\u{1680}', '\u{180e}', '\u{2000}',
              '\u{200a}', '\u{200b}', '\u{2028}', '\u{2029}', '\u{202f}', '\u{205f}', '\u{3000}', 'a', '\u{feff}'] {
        assert_eq!(is_white_space(c), c.is_whitespace(), "{:?}", c);
    }
}

#[test]
fn source_paths() {
    assert!(is_source_path("src/lib.rs"));
    assert!(is_source_path("src/net/tcp.rs"));
    assert!(is_source_path("build.rs"));
    assert!(!is_source_path("target/debug/build/x.rs"));
    assert!(!is_source_path("src/.hidden/a.rs"));
    assert!(!is_source_path("node_modules/a.rs"));
    assert!(!is_source_path("src/a.rs~"));
    assert!(!is_source_path("src/lib~.rs"));
    assert!(!is_source_path("src/README.md"));
    assert!(!is_source_path(""));
}
