# arcella_inspect

Static introspection of Rust projects: structs, functions and methods with
their signatures, documentation, attributes and meaningful calls, written as a
YAML 1.2 document in which every call is either resolved to the project's own
function of that name (file and line) or marked external.

## Layout

- `src/` is the verified library (Verus). It parses source text with `syn`
  (`parse.rs`); its input for the analysis is a model of each crate's parsed
  files (`model.rs`): each file's structs, free functions and `impl` blocks,
  with their enclosing inline modules, in the order a syntax-tree walk meets
  them, holding as plain values what the analysis reads.
  - `calls.rs`: which called names are recorded (noise words, short names).
  - `extract.rs`: the recorded text of return types, parameters,
    documentation and attributes; the record of one function.
  - `analysis.rs`: the records of a crate, file after file, under fully
    qualified names (module path from the file's place, inline modules, type).
  - `index.rs`: functions indexed by qualified name (the last one wins).
  - `yaml.rs`: the YAML document model, one subproject per crate, each call
    resolved by exact full name against its crate's own functions.
  - `workspace.rs`: a workspace's member roots and the root package.
  - `walk.rs`: which directory entries are entered and which files analyzed.
  - `parse.rs`: parsing source text with `syn`, and what counts as blank.
  - `manifest.rs`: the crate name, workspace members and package declared by
    a `Cargo.toml` (via `toml`).
  - `laws.rs`: properties of the analysis as a whole, proved.
- `app/` is the `arc-inspect` program: argument handling (`clap`), reading
  manifests and listing member directories, the directory walk (`walkdir`),
  reading files, walking their syntax trees (`syn`'s `Visit` trait) into the
  library's model, and writing the document with `serde_yaml_ng`.
