//! The index of a project's functions by qualified name.

use vstd::prelude::*;
use crate::data::{FunctionDecl, FunctionDeclView};
use crate::text::str_equal;
use crate::analysis::function_views;

verus! {

/// Where a function is declared: the file and line recorded under its name
/// by the last function of `fs` that bears it.
pub open spec fn function_index(fs: Seq<FunctionDeclView>) -> Map<Seq<char>, (Seq<char>, usize)>
    decreases fs.len(),
{
    if fs.len() == 0 {
        Map::empty()
    } else {
        function_index(fs.drop_last()).insert(fs.last().full_name, (fs.last().file, fs.last().line))
    }
}

/// One function's name and place.
pub struct IndexEntry {
    pub name: String,
    pub file: String,
    pub line: usize,
}

/// Functions indexed by qualified name; where two functions share a name,
/// the later one is found.
pub struct FunctionIndex {
    entries: Vec<IndexEntry>,
}

/// The map that a sequence of entries stands for: later entries replace
/// earlier ones of the same name.
pub open spec fn entries_map(es: Seq<IndexEntry>) -> Map<Seq<char>, (Seq<char>, usize)>
    decreases es.len(),
{
    if es.len() == 0 {
        Map::empty()
    } else {
        entries_map(es.drop_last()).insert(es.last().name@, (es.last().file@, es.last().line))
    }
}

impl View for FunctionIndex {
    type V = Map<Seq<char>, (Seq<char>, usize)>;

    closed spec fn view(&self) -> Map<Seq<char>, (Seq<char>, usize)> {
        entries_map(self.entries@)
    }
}

/// The last entry of a name is the one that the map holds.
proof fn lemma_last_entry(es: Seq<IndexEntry>, k: Seq<char>, i: int)
    requires
        0 <= i < es.len(),
        es[i].name@ == k,
        forall|j: int| i < j < es.len() ==> es[j].name@ != k,
    ensures
        entries_map(es).contains_key(k),
        entries_map(es)[k] == (es[i].file@, es[i].line),
    decreases es.len(),
{
    if i < es.len() - 1 {
        lemma_last_entry(es.drop_last(), k, i);
    }
}

/// A name that no entry bears is not in the map.
proof fn lemma_no_entry(es: Seq<IndexEntry>, k: Seq<char>)
    requires
        forall|j: int| 0 <= j < es.len() ==> es[j].name@ != k,
    ensures
        !entries_map(es).contains_key(k),
    decreases es.len(),
{
    if es.len() > 0 {
        lemma_no_entry(es.drop_last(), k);
    }
}

impl FunctionIndex {
    /// Finds the function recorded under `name`: the last one that bears it.
    pub fn get(&self, name: &str) -> (r: Option<&IndexEntry>)
        ensures
            match r {
                Some(e) => self@.contains_key(name@) && self@[name@] == (e.file@, e.line)
                    && e.name@ == name@,
                None => !self@.contains_key(name@),
            },
    {
        let mut i: usize = self.entries.len();
        while i > 0
            invariant
                i <= self.entries.len(),
                forall|j: int| i <= j < self.entries@.len() ==> self.entries@[j].name@ != name@,
            decreases i,
        {
            let e = &self.entries[i - 1];
            if str_equal(e.name.as_str(), name) {
                proof {
                    lemma_last_entry(self.entries@, name@, i - 1);
                }
                return Some(e);
            }
            i = i - 1;
        }
        proof {
            lemma_no_entry(self.entries@, name@);
        }
        None
    }
}

/// Builds an index of functions by their qualified name for lookup.
pub fn index_functions(functions: &[FunctionDecl]) -> (r: FunctionIndex)
    ensures
        r@ == function_index(function_views(functions@)),
{
    let ghost fs = function_views(functions@);
    let mut entries: Vec<IndexEntry> = Vec::new();
    let mut i: usize = 0;
    while i < functions.len()
        invariant
            fs == function_views(functions@),
            i <= functions.len(),
            entries@.len() == i,
            entries_map(entries@) == function_index(fs.take(i as int)),
        decreases functions.len() - i,
    {
        let f = &functions[i];
        let ghost before = entries@;
        entries.push(IndexEntry { name: f.full_name.clone(), file: f.file.clone(), line: f.line });
        assert(entries@.drop_last() =~= before);
        assert(fs.take(i + 1).drop_last() =~= fs.take(i as int));
        assert(fs.take(i + 1).last() == f@);
        i = i + 1;
    }
    assert(fs.take(functions.len() as int) =~= fs);
    FunctionIndex { entries }
}

} // verus!
