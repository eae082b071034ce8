//! The library's view of a concrete syntax tree: each node carries the kind
//! tag of its grammatical category, its byte range into the source text, and
//! its children in source order. The statement classifier routes each
//! top-level node to the import extractor, the export extractor, or neither.

use vstd::prelude::*;

verus! {

use crate::text::str_eq;
use crate::text::token_of;

/// One node of an already-built concrete syntax tree.
#[derive(Debug)]
pub struct SyntaxNode {
    /// The grammatical category of the node, e.g. `import_statement`.
    pub kind: String,
    /// First byte of the node's extent in the source text.
    pub start: usize,
    /// One past the last byte of the node's extent.
    pub end: usize,
    /// The node's children, in source order.
    pub children: Vec<SyntaxNode>,
}

/// The text of one node, when its byte range denotes valid text.
pub open spec fn node_token(n: SyntaxNode, b: Seq<u8>) -> Option<Seq<char>> {
    token_of(b, n.start as int, n.end as int)
}

/// What a top-level statement is to this library.
#[derive(Debug, Clone, Copy, PartialEq, Eq)]
pub enum StatementClass {
    Import,
    Export,
    Other,
}

/// The class of a top-level statement, by its kind tag.
pub open spec fn spec_classify(n: SyntaxNode) -> StatementClass {
    if n.kind@ == "import_statement"@ {
        StatementClass::Import
    } else if n.kind@ == "export_statement"@ {
        StatementClass::Export
    } else {
        StatementClass::Other
    }
}

/// Whether the node's kind tag is `k`.
pub fn kind_is(n: &SyntaxNode, k: &str) -> (r: bool)
    ensures
        r == (n.kind@ == k@),
{
    str_eq(n.kind.as_str(), k)
}

/// Partitions a top-level statement into import, export or other; only the
/// first two are ever inspected further.
pub fn classify(n: &SyntaxNode) -> (c: StatementClass)
    ensures
        c == spec_classify(*n),
{
    if kind_is(n, "import_statement") {
        StatementClass::Import
    } else if kind_is(n, "export_statement") {
        StatementClass::Export
    } else {
        StatementClass::Other
    }
}

} // verus!
