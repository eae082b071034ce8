//! The extraction core: given one top-level statement of a syntax tree and
//! the source text it indexes, produce the statement's import record or its
//! exported names; given a whole tree, produce the file's `FileAnalysis`.
//!
//! Extraction is fail-soft throughout: a statement whose shape matches no
//! recognized grammatical form contributes nothing, and a node whose byte
//! range denotes no valid text is omitted, never read.

use vstd::prelude::*;

verus! {

use vstd::string::StringSliceAdditionalSpecFns;
use vstd::string::StrSliceExecFns;
use vstd::string::StringExecFns;
use crate::tree::SyntaxNode;
use crate::tree::StatementClass;
use crate::tree::classify;
use crate::tree::kind_is;
use crate::tree::node_token;
use crate::tree::spec_classify;
use crate::records::AnalysisView;
use crate::records::FileAnalysis;
use crate::records::ImportRecord;
use crate::records::ImportView;
use crate::records::ModuleSpecifier;
use crate::records::SpecifierView;
use crate::text::dir_of;
use crate::text::slice_text;
use crate::text::spec_dir_of;
use crate::text::strip_quotes;
use crate::text::unquoted;
use crate::foreign::clean_path;
use crate::foreign::cleaned;

/// What one node contributes to a list of names: its text, or nothing when
/// its byte range denotes no valid text.
pub open spec fn opt_token(n: SyntaxNode, b: Seq<u8>) -> Seq<Seq<char>> {
    match node_token(n, b) {
        Some(t) => seq![t],
        None => Seq::empty(),
    }
}

/// The bindings contributed by the entries of a named-import list: the text
/// of every child that is an import specifier, in source order.
pub open spec fn spec_specifier_tokens(cs: Seq<SyntaxNode>, b: Seq<u8>) -> Seq<Seq<char>>
    decreases cs.len(),
{
    if cs.len() == 0 {
        Seq::empty()
    } else {
        spec_specifier_tokens(cs.drop_last(), b) + (if cs.last().kind@ == "import_specifier"@ {
            opt_token(cs.last(), b)
        } else {
            Seq::empty()
        })
    }
}

/// The bindings of one import clause. A clause whose first child has
/// children of its own is a named-import list and contributes the texts of
/// its import specifiers; any other clause is a default binding and
/// contributes the sentinel name.
pub open spec fn spec_clause_bindings(clause: SyntaxNode, b: Seq<u8>) -> Seq<Seq<char>> {
    if clause.children@.len() == 0 {
        seq!["default"@]
    } else if clause.children@[0].children@.len() == 0 {
        seq!["default"@]
    } else {
        spec_specifier_tokens(clause.children@[0].children@, b)
    }
}

/// One walk over the children of an import statement: import clauses extend
/// the bindings in order, and each string literal child replaces the module
/// specifier token, so the last one decides.
pub open spec fn spec_import_scan(cs: Seq<SyntaxNode>, b: Seq<u8>) -> (Seq<Seq<char>>, Option<
    Seq<char>,
>)
    decreases cs.len(),
{
    if cs.len() == 0 {
        (Seq::empty(), None::<Seq<char>>)
    } else {
        let prev = spec_import_scan(cs.drop_last(), b);
        if cs.last().kind@ == "import_clause"@ {
            (prev.0 + spec_clause_bindings(cs.last(), b), prev.1)
        } else if cs.last().kind@ == "string"@ {
            (prev.0, node_token(cs.last(), b))
        } else {
            prev
        }
    }
}

/// How a specifier token becomes a module specifier: quotes are stripped; a
/// specifier that then begins with `.` is joined to the importing file's
/// directory and normalized; any other is passed through unresolved.
pub open spec fn spec_specifier(tok: Seq<char>, dir: Seq<char>) -> SpecifierView {
    let sp = unquoted(tok);
    if sp.len() > 0 && sp[0] == '.' {
        SpecifierView::Resolved(cleaned(dir + sp))
    } else {
        SpecifierView::External(sp)
    }
}

/// The record of one import statement, or `None` when the statement holds no
/// module specifier string and is skipped as malformed.
pub open spec fn spec_import_record(stmt: SyntaxNode, b: Seq<u8>, dir: Seq<char>) -> Option<
    ImportView,
> {
    let scan = spec_import_scan(stmt.children@, b);
    match scan.1 {
        Some(tok) => Some(ImportView { bindings: scan.0, specifier: spec_specifier(tok, dir) }),
        None => None,
    }
}

/// The names contributed by the entries of an export clause: for every child
/// that is an export specifier, the text of its first sub-node.
pub open spec fn spec_clause_exports(cs: Seq<SyntaxNode>, b: Seq<u8>) -> Seq<Seq<char>>
    decreases cs.len(),
{
    if cs.len() == 0 {
        Seq::empty()
    } else {
        spec_clause_exports(cs.drop_last(), b) + (if cs.last().kind@ == "export_specifier"@
            && cs.last().children@.len() > 0 {
            opt_token(cs.last().children@[0], b)
        } else {
            Seq::empty()
        })
    }
}

/// What one child of an export statement contributes, by its grammatical
/// form: an export clause lists names; a function declaration names its
/// second child; a lexical declaration names the first child of its first
/// declarator; a type-alias declaration names its second child when that is
/// a type identifier; a bare `default` keyword contributes the sentinel.
/// Every other shape contributes nothing.
pub open spec fn spec_child_exports(c: SyntaxNode, b: Seq<u8>) -> Seq<Seq<char>> {
    if c.kind@ == "export_clause"@ {
        spec_clause_exports(c.children@, b)
    } else if c.kind@ == "function_declaration"@ {
        if c.children@.len() > 1 {
            opt_token(c.children@[1], b)
        } else {
            Seq::empty()
        }
    } else if c.kind@ == "lexical_declaration"@ {
        if c.children@.len() > 1 && c.children@[1].children@.len() > 0 {
            opt_token(c.children@[1].children@[0], b)
        } else {
            Seq::empty()
        }
    } else if c.kind@ == "type_alias_declaration"@ {
        if c.children@.len() > 1 && c.children@[1].kind@ == "type_identifier"@ {
            opt_token(c.children@[1], b)
        } else {
            Seq::empty()
        }
    } else if c.kind@ == "default"@ {
        seq!["default"@]
    } else {
        Seq::empty()
    }
}

/// The names exported by the children of one export statement, in order.
pub open spec fn spec_children_exports(cs: Seq<SyntaxNode>, b: Seq<u8>) -> Seq<Seq<char>>
    decreases cs.len(),
{
    if cs.len() == 0 {
        Seq::empty()
    } else {
        spec_children_exports(cs.drop_last(), b) + spec_child_exports(cs.last(), b)
    }
}

/// The names exported by one export statement.
pub open spec fn spec_stmt_exports(stmt: SyntaxNode, b: Seq<u8>) -> Seq<Seq<char>> {
    spec_children_exports(stmt.children@, b)
}

/// What one import statement adds to a file's import list: its record, or
/// nothing when it is skipped.
pub open spec fn opt_import(s: SyntaxNode, b: Seq<u8>, dir: Seq<char>) -> Seq<ImportView> {
    match spec_import_record(s, b, dir) {
        Some(iv) => seq![iv],
        None => Seq::empty(),
    }
}

/// The analysis of a file from its top-level statements: import statements
/// extend the import list, export statements extend the export list, and
/// every other statement is ignored.
pub open spec fn spec_analyze(cs: Seq<SyntaxNode>, b: Seq<u8>, dir: Seq<char>) -> AnalysisView
    decreases cs.len(),
{
    if cs.len() == 0 {
        AnalysisView { imports: Seq::empty(), exports: Seq::empty() }
    } else {
        let prev = spec_analyze(cs.drop_last(), b, dir);
        match spec_classify(cs.last()) {
            StatementClass::Import => AnalysisView {
                imports: prev.imports + opt_import(cs.last(), b, dir),
                exports: prev.exports,
            },
            StatementClass::Export => AnalysisView {
                imports: prev.imports,
                exports: prev.exports + spec_stmt_exports(cs.last(), b),
            },
            StatementClass::Other => prev,
        }
    }
}

/// Appends the text of `node` to `out`; a node whose byte range denotes no
/// valid text is omitted.
pub fn add_export(node: &SyntaxNode, text: &str, out: &mut Vec<String>)
    ensures
        final(out).deep_view() == old(out).deep_view() + opt_token(*node, text.spec_bytes()),
{
    match slice_text(text, node.start, node.end) {
        Some(tok) => {
            out.push(tok.to_owned());
            proof {
                assert(out.deep_view() =~= old(out).deep_view() + opt_token(
                    *node,
                    text.spec_bytes(),
                ));
            }
        },
        None => {
            proof {
                assert(out.deep_view() =~= old(out).deep_view() + opt_token(
                    *node,
                    text.spec_bytes(),
                ));
            }
        },
    }
}

/// The bound names of one import clause, in source order.
fn clause_bindings(clause: &SyntaxNode, text: &str) -> (r: Vec<String>)
    ensures
        r.deep_view() == spec_clause_bindings(*clause, text.spec_bytes()),
{
    let ghost b: Seq<u8> = text.spec_bytes();
    let mut out: Vec<String> = Vec::new();
    if clause.children.len() == 0 {
        out.push(String::from_str("default"));
        proof {
            assert(out.deep_view() =~= seq!["default"@]);
        }
        return out;
    }
    let c0 = &clause.children[0];
    if c0.children.len() == 0 {
        out.push(String::from_str("default"));
        proof {
            assert(out.deep_view() =~= seq!["default"@]);
        }
        return out;
    }
    let n = c0.children.len();
    let mut j: usize = 0;
    while j < n
        invariant
            n == c0.children@.len(),
            j <= n,
            b == text.spec_bytes(),
            out.deep_view() == spec_specifier_tokens(c0.children@.take(j as int), b),
        decreases n - j,
    {
        let gc = &c0.children[j];
        if kind_is(gc, "import_specifier") {
            add_export(gc, text, &mut out);
        }
        proof {
            let cs = c0.children@;
            assert(cs.take(j + 1).drop_last() =~= cs.take(j as int));
            assert(cs.take(j + 1).last() == cs[j as int]);
            assert(out.deep_view() =~= spec_specifier_tokens(cs.take(j + 1), b));
        }
        j = j + 1;
    }
    proof {
        assert(c0.children@.take(n as int) =~= c0.children@);
    }
    out
}

/// Turns a specifier token into the record's module specifier: strips its
/// quotes, and resolves it against `dir` when it is relative.
pub fn resolve_specifier(tok: &str, dir: &str) -> (r: ModuleSpecifier)
    ensures
        r@ == spec_specifier(tok@, dir@),
{
    let sp = strip_quotes(tok);
    let relative = sp.as_str().unicode_len() > 0 && sp.as_str().get_char(0) == '.';
    if relative {
        let mut joined = String::from_str(dir);
        joined.append(sp.as_str());
        ModuleSpecifier::Resolved(clean_path(joined.as_str()))
    } else {
        ModuleSpecifier::External(sp)
    }
}

/// The import record of one import statement, or `None` when the statement
/// holds no module specifier string.
pub fn extract_import(stmt: &SyntaxNode, text: &str, dir: &str) -> (r: Option<ImportRecord>)
    ensures
        r is Some <==> spec_import_record(*stmt, text.spec_bytes(), dir@) is Some,
        r matches Some(rec) ==> Some(rec@) == spec_import_record(*stmt, text.spec_bytes(), dir@),
{
    let ghost b: Seq<u8> = text.spec_bytes();
    let mut bindings: Vec<String> = Vec::new();
    let mut source: Option<&str> = None;
    let n = stmt.children.len();
    let mut i: usize = 0;
    while i < n
        invariant
            n == stmt.children@.len(),
            i <= n,
            b == text.spec_bytes(),
            bindings.deep_view() == spec_import_scan(stmt.children@.take(i as int), b).0,
            source.deep_view() == spec_import_scan(stmt.children@.take(i as int), b).1,
        decreases n - i,
    {
        let c = &stmt.children[i];
        if kind_is(c, "import_clause") {
            let mut more = clause_bindings(c, text);
            bindings.append(&mut more);
            proof {
                assert(bindings.deep_view() =~= spec_import_scan(
                    stmt.children@.take(i as int),
                    b,
                ).0 + spec_clause_bindings(stmt.children@[i as int], b));
            }
        } else if kind_is(c, "string") {
            source = slice_text(text, c.start, c.end);
        }
        proof {
            let cs = stmt.children@;
            assert(cs.take(i + 1).drop_last() =~= cs.take(i as int));
            assert(cs.take(i + 1).last() == cs[i as int]);
        }
        i = i + 1;
    }
    proof {
        assert(stmt.children@.take(n as int) =~= stmt.children@);
    }
    match source {
        Some(tok) => {
            let specifier = resolve_specifier(tok, dir);
            Some(ImportRecord { bindings, specifier })
        },
        None => None,
    }
}

/// The names contributed by one export clause, in source order.
fn clause_exports(c: &SyntaxNode, text: &str, out: &mut Vec<String>)
    ensures
        final(out).deep_view() == old(out).deep_view() + spec_clause_exports(
            c.children@,
            text.spec_bytes(),
        ),
{
    let ghost b: Seq<u8> = text.spec_bytes();
    let n = c.children.len();
    let mut j: usize = 0;
    while j < n
        invariant
            n == c.children@.len(),
            j <= n,
            b == text.spec_bytes(),
            out.deep_view() == old(out).deep_view() + spec_clause_exports(
                c.children@.take(j as int),
                b,
            ),
        decreases n - j,
    {
        let sp = &c.children[j];
        if kind_is(sp, "export_specifier") && sp.children.len() > 0 {
            add_export(&sp.children[0], text, out);
        }
        proof {
            let cs = c.children@;
            assert(cs.take(j + 1).drop_last() =~= cs.take(j as int));
            assert(cs.take(j + 1).last() == cs[j as int]);
            assert(out.deep_view() =~= old(out).deep_view() + spec_clause_exports(
                cs.take(j + 1),
                b,
            ));
        }
        j = j + 1;
    }
    proof {
        assert(c.children@.take(n as int) =~= c.children@);
    }
}

/// Appends what one child of an export statement contributes to `out`.
fn child_exports(c: &SyntaxNode, text: &str, out: &mut Vec<String>)
    ensures
        final(out).deep_view() == old(out).deep_view() + spec_child_exports(*c, text.spec_bytes()),
{
    let ghost b: Seq<u8> = text.spec_bytes();
    if kind_is(c, "export_clause") {
        clause_exports(c, text, out);
    } else if kind_is(c, "function_declaration") {
        if c.children.len() > 1 {
            add_export(&c.children[1], text, out);
        }
    } else if kind_is(c, "lexical_declaration") {
        if c.children.len() > 1 && c.children[1].children.len() > 0 {
            add_export(&c.children[1].children[0], text, out);
        }
    } else if kind_is(c, "type_alias_declaration") {
        if c.children.len() > 1 && kind_is(&c.children[1], "type_identifier") {
            add_export(&c.children[1], text, out);
        }
    } else if kind_is(c, "default") {
        out.push(String::from_str("default"));
        proof {
            assert(out.deep_view() =~= old(out).deep_view() + seq!["default"@]);
        }
    }
    proof {
        assert(out.deep_view() =~= old(out).deep_view() + spec_child_exports(*c, b));
    }
}

/// The names exported by one export statement, appended to `out` in source
/// order.
pub fn extract_exports(stmt: &SyntaxNode, text: &str, out: &mut Vec<String>)
    ensures
        final(out).deep_view() == old(out).deep_view() + spec_stmt_exports(*stmt, text.spec_bytes()),
{
    let ghost b: Seq<u8> = text.spec_bytes();
    let n = stmt.children.len();
    let mut i: usize = 0;
    while i < n
        invariant
            n == stmt.children@.len(),
            i <= n,
            b == text.spec_bytes(),
            out.deep_view() == old(out).deep_view() + spec_children_exports(
                stmt.children@.take(i as int),
                b,
            ),
        decreases n - i,
    {
        child_exports(&stmt.children[i], text, out);
        proof {
            let cs = stmt.children@;
            assert(cs.take(i + 1).drop_last() =~= cs.take(i as int));
            assert(cs.take(i + 1).last() == cs[i as int]);
            assert(out.deep_view() =~= old(out).deep_view() + spec_children_exports(
                cs.take(i + 1),
                b,
            ));
        }
        i = i + 1;
    }
    proof {
        assert(stmt.children@.take(n as int) =~= stmt.children@);
    }
}

/// The analysis of one parsed file: walks the top-level statements of `root`
/// in source order, extracting every import and export.
pub fn analyze_tree(root: &SyntaxNode, text: &str, path: &str) -> (r: FileAnalysis)
    ensures
        r@ == spec_analyze(root.children@, text.spec_bytes(), spec_dir_of(path@)),
{
    let ghost b: Seq<u8> = text.spec_bytes();
    let dir = dir_of(path);
    let mut imports: Vec<ImportRecord> = Vec::new();
    let mut exports: Vec<String> = Vec::new();
    let n = root.children.len();
    let mut i: usize = 0;
    while i < n
        invariant
            n == root.children@.len(),
            i <= n,
            b == text.spec_bytes(),
            dir@ == spec_dir_of(path@),
            imports.deep_view() == spec_analyze(root.children@.take(i as int), b, dir@).imports,
            exports.deep_view() == spec_analyze(root.children@.take(i as int), b, dir@).exports,
        decreases n - i,
    {
        let c = &root.children[i];
        match classify(c) {
            StatementClass::Import => {
                match extract_import(c, text, dir.as_str()) {
                    Some(rec) => {
                        imports.push(rec);
                        proof {
                            assert(imports.deep_view() =~= spec_analyze(
                                root.children@.take(i as int),
                                b,
                                dir@,
                            ).imports + opt_import(root.children@[i as int], b, dir@));
                        }
                    },
                    None => {
                        proof {
                            assert(imports.deep_view() =~= spec_analyze(
                                root.children@.take(i as int),
                                b,
                                dir@,
                            ).imports + opt_import(root.children@[i as int], b, dir@));
                        }
                    },
                }
            },
            StatementClass::Export => {
                extract_exports(c, text, &mut exports);
            },
            StatementClass::Other => {},
        }
        proof {
            let cs = root.children@;
            assert(cs.take(i + 1).drop_last() =~= cs.take(i as int));
            assert(cs.take(i + 1).last() == cs[i as int]);
        }
        i = i + 1;
    }
    proof {
        assert(root.children@.take(n as int) =~= root.children@);
    }
    FileAnalysis { imports, exports }
}

/// Extraction is a pure function of the tree, the text and the directory:
/// any two analyses of the same inputs are identical.
pub proof fn lemma_extraction_idempotent(
    a1: FileAnalysis,
    a2: FileAnalysis,
    cs: Seq<SyntaxNode>,
    b: Seq<u8>,
    dir: Seq<char>,
)
    requires
        a1@ == spec_analyze(cs, b, dir),
        a2@ == spec_analyze(cs, b, dir),
    ensures
        a1@ == a2@,
{
}

/// A statement that is neither an import nor an export contributes nothing:
/// the analysis of a statement list with such a statement in its midst — an
/// unrecognized or syntactically invalid one — equals the analysis without
/// it, so one bad statement never disturbs its neighbours.
pub proof fn lemma_foreign_statement_ignored(
    pre: Seq<SyntaxNode>,
    mid: SyntaxNode,
    post: Seq<SyntaxNode>,
    b: Seq<u8>,
    dir: Seq<char>,
)
    requires
        spec_classify(mid) is Other,
    ensures
        spec_analyze(pre + seq![mid] + post, b, dir) == spec_analyze(pre + post, b, dir),
    decreases post.len(),
{
    if post.len() == 0 {
        assert((pre + seq![mid] + post).drop_last() =~= pre);
        assert((pre + seq![mid] + post).last() == mid);
        assert(pre + post =~= pre);
    } else {
        lemma_foreign_statement_ignored(pre, mid, post.drop_last(), b, dir);
        assert((pre + seq![mid] + post).drop_last() =~= pre + seq![mid] + post.drop_last());
        assert((pre + post).drop_last() =~= pre + post.drop_last());
        assert((pre + seq![mid] + post).last() == post.last());
        assert((pre + post).last() == post.last());
    }
}

} // verus!
