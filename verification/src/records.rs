//! The normalized, language-agnostic records that extraction emits: one
//! `ImportRecord` per import statement, a flat list of exported names per
//! file, and the `FileAnalysis` that holds both.

use vstd::prelude::*;

verus! {

/// The module specifier of an import, after its quotes are stripped.
///
/// A relative specifier (one that begins with `.`) is resolved against the
/// directory of the importing file and normalized into a canonical path; a
/// non-relative (package) specifier is recorded as written, unresolved.
#[derive(Debug, Clone, PartialEq, Eq)]
pub enum ModuleSpecifier {
    /// A relative specifier, normalized into a canonical file-system path.
    Resolved(String),
    /// A package specifier, passed through unresolved.
    External(String),
}

/// Mathematical value of a `ModuleSpecifier`.
pub enum SpecifierView {
    Resolved(Seq<char>),
    External(Seq<char>),
}

impl View for ModuleSpecifier {
    type V = SpecifierView;

    open spec fn view(&self) -> SpecifierView {
        match self {
            ModuleSpecifier::Resolved(p) => SpecifierView::Resolved(p@),
            ModuleSpecifier::External(p) => SpecifierView::External(p@),
        }
    }
}

impl DeepView for ModuleSpecifier {
    type V = SpecifierView;

    open spec fn deep_view(&self) -> SpecifierView {
        self.view()
    }
}

/// What one import statement binds: the bound names, in source order, with
/// the module they come from. The sentinel name `default` stands for the
/// default binding slot; a side-effect-only import binds nothing.
#[derive(Debug, Clone, PartialEq, Eq)]
pub struct ImportRecord {
    /// Bound identifier names, or the sentinel `default`.
    pub bindings: Vec<String>,
    /// The module the names are imported from.
    pub specifier: ModuleSpecifier,
}

/// Mathematical value of an `ImportRecord`.
pub struct ImportView {
    pub bindings: Seq<Seq<char>>,
    pub specifier: SpecifierView,
}

impl View for ImportRecord {
    type V = ImportView;

    open spec fn view(&self) -> ImportView {
        ImportView { bindings: self.bindings.deep_view(), specifier: self.specifier@ }
    }
}

impl DeepView for ImportRecord {
    type V = ImportView;

    open spec fn deep_view(&self) -> ImportView {
        self.view()
    }
}

/// Everything extraction learns from one file: its imports, in source order,
/// and its exported names, flattened in source order.
#[derive(Debug, Clone, PartialEq, Eq)]
pub struct FileAnalysis {
    pub imports: Vec<ImportRecord>,
    pub exports: Vec<String>,
}

/// Mathematical value of a `FileAnalysis`.
pub struct AnalysisView {
    pub imports: Seq<ImportView>,
    pub exports: Seq<Seq<char>>,
}

impl View for FileAnalysis {
    type V = AnalysisView;

    open spec fn view(&self) -> AnalysisView {
        AnalysisView { imports: self.imports.deep_view(), exports: self.exports.deep_view() }
    }
}

impl DeepView for FileAnalysis {
    type V = AnalysisView;

    open spec fn deep_view(&self) -> AnalysisView {
        self.view()
    }
}

} // verus!
