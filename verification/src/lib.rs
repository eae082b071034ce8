//! Structural analysis of module linkage in JavaScript/TypeScript sources.
//!
//! Given the concrete syntax tree of one source file, the library walks its
//! top-level statements, recognizes the grammatical forms of import and
//! export statements, and emits normalized records: the bound identifier
//! names of each import together with its resolved module path, and the
//! exported names of the file. A project-wide aggregator maps file paths to
//! these per-file results, skipping files that could not be read or parsed.

pub mod extract;
pub mod foreign;
pub mod project;
pub mod records;
pub mod text;
pub mod tree;
