//! The project aggregator: drives extraction over every candidate file and
//! assembles the map from file path to `FileAnalysis`. A file whose text
//! could not be read, or for which the parser built no tree, is skipped and
//! contributes no entry — not even an empty one.

use vstd::prelude::*;

verus! {

use crate::extract::analyze_tree;
use crate::extract::spec_analyze;
use crate::foreign::parse_tsx;
use crate::foreign::parsed_tsx;
use crate::records::AnalysisView;
use crate::records::FileAnalysis;
use crate::text::spec_dir_of;

/// One candidate file, as the file source provider hands it over: its path,
/// and its text, or `None` when the file could not be read.
#[derive(Debug)]
pub struct FileInput {
    pub path: String,
    pub content: Option<String>,
}

/// Whether a candidate file reaches extraction: its text was read and the
/// parser built a tree for it.
pub open spec fn analyzable(inp: FileInput) -> bool {
    match inp.content {
        Some(t) => parsed_tsx(t@) is Some,
        None => false,
    }
}

/// The analysis that a candidate file contributes when it reaches
/// extraction.
pub open spec fn spec_file_analysis(inp: FileInput) -> AnalysisView
    recommends
        analyzable(inp),
{
    let t = inp.content->Some_0;
    let root = parsed_tsx(t@)->Some_0;
    spec_analyze(root.children@, vstd::utf8::encode_utf8(t@), spec_dir_of(inp.path@))
}

/// The finalized result of a run: for every file that reached extraction,
/// its analysis, keyed by the file's path.
pub open spec fn spec_project(inputs: Seq<FileInput>) -> Map<Seq<char>, AnalysisView>
    decreases inputs.len(),
{
    if inputs.len() == 0 {
        Map::empty()
    } else {
        let m = spec_project(inputs.drop_last());
        let inp = inputs.last();
        if analyzable(inp) {
            m.insert(inp.path@, spec_file_analysis(inp))
        } else {
            m
        }
    }
}

/// The map from file path to analysis. Entries accumulate in run order; as a
/// map, a later entry for the same path replaces an earlier one.
#[derive(Debug)]
pub struct ProjectMap {
    pub entries: Vec<(String, FileAnalysis)>,
}

impl View for ProjectMap {
    type V = Map<Seq<char>, AnalysisView>;

    open spec fn view(&self) -> Map<Seq<char>, AnalysisView> {
        entries_map(self.entries@)
    }
}

/// The map that a list of entries denotes, later entries replacing earlier
/// ones with the same key.
pub open spec fn entries_map(es: Seq<(String, FileAnalysis)>) -> Map<Seq<char>, AnalysisView>
    decreases es.len(),
{
    if es.len() == 0 {
        Map::empty()
    } else {
        entries_map(es.drop_last()).insert(es.last().0@, es.last().1@)
    }
}

impl ProjectMap {
    /// The analysis recorded for `path`, when the run produced one.
    pub fn get(&self, path: &str) -> (r: Option<&FileAnalysis>)
        ensures
            r is Some <==> self@.contains_key(path@),
            r matches Some(a) ==> self@[path@] == a@,
    {
        let n = self.entries.len();
        let mut i: usize = n;
        while i > 0
            invariant
                i <= n,
                n == self.entries@.len(),
                forall|j: int| i <= j < n ==> self.entries@[j].0@ != path@,
            decreases i,
        {
            if crate::text::str_eq(self.entries[i - 1].0.as_str(), path) {
                proof {
                    lemma_entries_map_at(self.entries@, i - 1);
                }
                return Some(&self.entries[i - 1].1);
            }
            i = i - 1;
        }
        proof {
            lemma_entries_map_absent(self.entries@, path@);
        }
        None
    }
}

/// The entry after which no other carries its key decides what the map binds
/// that key to.
proof fn lemma_entries_map_at(es: Seq<(String, FileAnalysis)>, k: int)
    requires
        0 <= k < es.len(),
        forall|j: int| k < j < es.len() ==> es[j].0@ != es[k].0@,
    ensures
        entries_map(es).contains_key(es[k].0@),
        entries_map(es)[es[k].0@] == es[k].1@,
    decreases es.len(),
{
    if k == es.len() - 1 {
    } else {
        assert(forall|j: int| 0 <= j < es.drop_last().len() ==> es.drop_last()[j] == es[j]);
        lemma_entries_map_at(es.drop_last(), k);
    }
}

/// A key that no entry carries is no key of the map.
proof fn lemma_entries_map_absent(es: Seq<(String, FileAnalysis)>, p: Seq<char>)
    requires
        forall|j: int| 0 <= j < es.len() ==> es[j].0@ != p,
    ensures
        !entries_map(es).contains_key(p),
    decreases es.len(),
{
    if es.len() > 0 {
        assert(forall|j: int| 0 <= j < es.drop_last().len() ==> es.drop_last()[j] == es[j]);
        lemma_entries_map_absent(es.drop_last(), p);
    }
}

/// Parses one file's text and extracts its analysis, or returns `None` when
/// the parser could not build a tree.
pub fn analyze_source(text: &str, path: &str) -> (r: Option<FileAnalysis>)
    ensures
        r is Some <==> parsed_tsx(text@) is Some,
        r matches Some(a) ==> a@ == spec_analyze(
            parsed_tsx(text@)->Some_0.children@,
            vstd::utf8::encode_utf8(text@),
            spec_dir_of(path@),
        ),
{
    match parse_tsx(text) {
        Some(root) => Some(analyze_tree(&root, text, path)),
        None => None,
    }
}

/// Runs the per-file pipeline over every candidate file and assembles the
/// project map: exactly the files whose text was read and parsed appear,
/// each mapped to its extracted analysis.
pub fn build_project_map(inputs: &Vec<FileInput>) -> (r: ProjectMap)
    ensures
        r@ == spec_project(inputs@),
{
    let mut pm = ProjectMap { entries: Vec::new() };
    let n = inputs.len();
    let mut i: usize = 0;
    while i < n
        invariant
            n == inputs@.len(),
            i <= n,
            pm@ == spec_project(inputs@.take(i as int)),
        decreases n - i,
    {
        let inp = &inputs[i];
        let ghost prev = pm.entries@;
        match &inp.content {
            Some(text) => {
                match analyze_source(text.as_str(), inp.path.as_str()) {
                    Some(analysis) => {
                        let key = inp.path.clone();
                        pm.entries.push((key, analysis));
                        proof {
                            assert(pm.entries@.drop_last() =~= prev);
                        }
                    },
                    None => {},
                }
            },
            None => {},
        }
        proof {
            assert(inputs@.take(i + 1).drop_last() =~= inputs@.take(i as int));
            assert(inputs@.take(i + 1).last() == inputs@[i as int]);
        }
        i = i + 1;
    }
    proof {
        assert(inputs@.take(n as int) =~= inputs@);
    }
    pm
}

/// A skipped file never appears: when every candidate carrying a path was
/// unreadable or unparsable, that path is no key of the final map.
pub proof fn lemma_skipped_files_absent(inputs: Seq<FileInput>, p: Seq<char>)
    requires
        forall|i: int| 0 <= i < inputs.len() ==> (inputs[i].path@ == p ==> !analyzable(inputs[i])),
    ensures
        !spec_project(inputs).contains_key(p),
    decreases inputs.len(),
{
    if inputs.len() > 0 {
        assert(forall|i: int|
            0 <= i < inputs.drop_last().len() ==> inputs.drop_last()[i] == inputs[i]);
        lemma_skipped_files_absent(inputs.drop_last(), p);
    }
}

/// An analyzed file always appears: when some candidate carrying a path was
/// read and parsed, and no later candidate carries the same path, that path
/// is a key of the final map, bound to that candidate's analysis.
pub proof fn lemma_analyzed_file_present(inputs: Seq<FileInput>, i: int)
    requires
        0 <= i < inputs.len(),
        analyzable(inputs[i]),
        forall|j: int| i < j < inputs.len() ==> inputs[j].path@ != inputs[i].path@,
    ensures
        spec_project(inputs).contains_key(inputs[i].path@),
        spec_project(inputs)[inputs[i].path@] == spec_file_analysis(inputs[i]),
    decreases inputs.len(),
{
    if i == inputs.len() - 1 {
    } else {
        assert(forall|j: int|
            0 <= j < inputs.drop_last().len() ==> inputs.drop_last()[j] == inputs[j]);
        lemma_analyzed_file_present(inputs.drop_last(), i);
    }
}

} // verus!
