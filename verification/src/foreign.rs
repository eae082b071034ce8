//! The boundary to the outside crates: the tree-sitter parser with its TSX
//! grammar, which turns source text into the syntax tree the extractors walk,
//! and the lexical path cleaner that normalizes resolved module paths.
//!
//! Each function here is taken on trust: its contract names the outside
//! result without restating the outside algorithm.

use vstd::prelude::*;

verus! {

use crate::tree::SyntaxNode;

/// The syntax tree that the TSX grammar assigns to a text, or `None` when the
/// parser cannot build a tree at all. Parsing is deterministic: a function of
/// the source text alone, once the grammar is fixed.
pub uninterp spec fn parsed_tsx(text: Seq<char>) -> Option<SyntaxNode>;

/// The canonical form of a path, with `.` and `..` segments and repeated
/// separators collapsed, a function of the path string alone.
pub uninterp spec fn cleaned(path: Seq<char>) -> Seq<char>;

/// Relies on tree_sitter::Parser with tree_sitter_typescript::language_tsx:
/// given a fixed grammar, parsing is a pure function of the source text, and
/// the returned tree exposes, per node, a kind tag, a byte range into the
/// text, and its children in order; `build_node` copies them one for one.
#[verifier::external_body]
pub(crate) fn parse_tsx(text: &str) -> (r: Option<SyntaxNode>)
    ensures
        r == parsed_tsx(text@),
{
    let mut parser = tree_sitter::Parser::new();
    if parser.set_language(tree_sitter_typescript::language_tsx()).is_err() {
        return None;
    }
    match parser.parse(text, None) {
        Some(tree) => Some(build_node(tree.root_node())),
        None => None,
    }
}

/// The tree-sitter node type, opaque to the verifier; `build_node` takes it
/// while copying a parse tree.
#[verifier::external_type_specification]
#[verifier::external_body]
pub struct ExTsNode<'a>(tree_sitter::Node<'a>);

/// Helper of `parse_tsx`. Relies on tree_sitter::Node::{kind, start_byte,
/// end_byte, child, child_count}: a node's byte range never runs backwards.
#[verifier::external_body]
fn build_node<'a>(node: tree_sitter::Node<'a>) -> (r: SyntaxNode)
    ensures
        r.start <= r.end,
{
    let mut children = Vec::new();
    let mut i: usize = 0;
    while i < node.child_count() {
        children.push(build_node(node.child(i).unwrap()));
        i = i + 1;
    }
    let kind = node.kind().to_string();
    SyntaxNode { kind, start: node.start_byte(), end: node.end_byte(), children }
}

/// Relies on path_clean::clean: a purely lexical normalization that reduces
/// repeated slashes and resolves `.` and `..` segments, never touching the
/// file system.
#[verifier::external_body]
pub(crate) fn clean_path(path: &str) -> (r: String)
    ensures
        r@ == cleaned(path@),
{
    path_clean::clean(path)
}

} // verus!
