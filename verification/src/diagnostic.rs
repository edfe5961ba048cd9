//! The diagnostic capability interface and the concrete diagnostic kinds.
//!
//! Every kind is an immutable record built by the pass that found the
//! problem: constructing one cannot fail, and no kind stores a severity —
//! mapping kinds to levels is consumer policy. The shared interface gives
//! consumers the kind's stable code, a human-readable message, the source
//! anchor to underline, and a flag marking kinds with a known elevated
//! false-positive rate.

use vstd::prelude::*;

use crate::anchor::{FileIdentity, SourceAnchor};
use crate::code::DiagnosticCode;
use crate::pointer::{StablePointer, TypedPointer};
use crate::tree::{DEPENDENCY_DECLARATION, MODULE_DECLARATION, USE_TREE};

verus! {

/// The capability interface every diagnostic kind implements. The spec
/// functions name, per kind, the code, the message, the anchor's parts and
/// the experimental flag; the executable methods return exactly those.
pub trait Diagnostic {
    /// The kind's stable code, as the characters of its text.
    spec fn spec_code(&self) -> Seq<char>;

    /// The message shown for this instance, as its characters.
    spec fn spec_message(&self) -> Seq<char>;

    /// The file this instance points into.
    spec fn spec_file(&self) -> FileIdentity;

    /// The grammar production of the node this instance points at.
    spec fn spec_target_kind(&self) -> u32;

    /// The child-index chain from the tree root to that node.
    spec fn spec_target_path(&self) -> Seq<usize>;

    /// Whether this kind carries a known elevated false-positive rate, so a
    /// consumer may down-rank or hide it by default.
    spec fn spec_experimental(&self) -> bool;

    /// The stable, machine-readable identifier of this kind; constant across
    /// calls and across instances.
    fn code(&self) -> (c: DiagnosticCode)
        ensures
            c.text@ == self.spec_code(),
    ;

    /// The human-readable description of the problem.
    fn message(&self) -> (m: String)
        ensures
            m@ == self.spec_message(),
    ;

    /// Where the problem is: the anchor used for cursor placement and
    /// underlining, with the pointer in its untyped form.
    fn display_source(&self) -> (a: SourceAnchor)
        ensures
            a.file == self.spec_file(),
            a.ptr.kind == self.spec_target_kind(),
            a.ptr.path@ == self.spec_target_path(),
    ;

    /// Whether a consumer should treat this kind as advisory by default.
    fn is_experimental(&self) -> (b: bool)
        ensures
            b == self.spec_experimental(),
    ;
}

/// A declared sub-module could not be matched to a file on the module search
/// path. `candidate` records the attempted name for tooling; it is kept out
/// of the message on purpose — the structured field is there for consumers
/// that recover the concrete kind.
#[derive(Debug)]
pub struct UnresolvedModule {
    pub file: FileIdentity,
    /// The module declaration, typed to that production.
    pub decl: TypedPointer,
    /// The file name or path that was looked for and not found.
    pub candidate: String,
}

impl UnresolvedModule {
    /// A well-formed instance points at a module declaration.
    pub open spec fn wf(&self) -> bool {
        self.decl.wf() && self.decl.production == MODULE_DECLARATION
    }
}

impl Diagnostic for UnresolvedModule {
    open spec fn spec_code(&self) -> Seq<char> {
        "unresolved-module"@
    }

    open spec fn spec_message(&self) -> Seq<char> {
        "unresolved module"@
    }

    open spec fn spec_file(&self) -> FileIdentity {
        self.file
    }

    open spec fn spec_target_kind(&self) -> u32 {
        self.decl.ptr.kind
    }

    open spec fn spec_target_path(&self) -> Seq<usize> {
        self.decl.ptr.path@
    }

    open spec fn spec_experimental(&self) -> bool {
        false
    }

    fn code(&self) -> (c: DiagnosticCode) {
        DiagnosticCode { text: "unresolved-module" }
    }

    fn message(&self) -> (m: String) {
        "unresolved module".to_owned()
    }

    fn display_source(&self) -> (a: SourceAnchor) {
        SourceAnchor { file: self.file, ptr: self.decl.to_untyped() }
    }

    fn is_experimental(&self) -> (b: bool) {
        false
    }
}

/// A declaration names an external dependency that is absent from the
/// resolved dependency graph.
#[derive(Debug)]
pub struct UnresolvedExternCrate {
    pub file: FileIdentity,
    /// The declaring item, typed to that production.
    pub item: TypedPointer,
}

impl UnresolvedExternCrate {
    /// A well-formed instance points at a dependency declaration.
    pub open spec fn wf(&self) -> bool {
        self.item.wf() && self.item.production == DEPENDENCY_DECLARATION
    }
}

impl Diagnostic for UnresolvedExternCrate {
    open spec fn spec_code(&self) -> Seq<char> {
        "unresolved-extern-crate"@
    }

    open spec fn spec_message(&self) -> Seq<char> {
        "unresolved extern crate"@
    }

    open spec fn spec_file(&self) -> FileIdentity {
        self.file
    }

    open spec fn spec_target_kind(&self) -> u32 {
        self.item.ptr.kind
    }

    open spec fn spec_target_path(&self) -> Seq<usize> {
        self.item.ptr.path@
    }

    open spec fn spec_experimental(&self) -> bool {
        false
    }

    fn code(&self) -> (c: DiagnosticCode) {
        DiagnosticCode { text: "unresolved-extern-crate" }
    }

    fn message(&self) -> (m: String) {
        "unresolved extern crate".to_owned()
    }

    fn display_source(&self) -> (a: SourceAnchor) {
        SourceAnchor { file: self.file, ptr: self.item.to_untyped() }
    }

    fn is_experimental(&self) -> (b: bool) {
        false
    }
}

/// An import path failed to resolve. Experimental: the resolving pass cannot
/// yet account for some conditionally compiled, architecture-specific or
/// generated code, so false positives are expected and a consumer should not
/// present this kind as blocking by default.
#[derive(Debug)]
pub struct UnresolvedImport {
    pub file: FileIdentity,
    /// The failing use tree, typed to that production.
    pub node: TypedPointer,
}

impl UnresolvedImport {
    /// A well-formed instance points at a use tree.
    pub open spec fn wf(&self) -> bool {
        self.node.wf() && self.node.production == USE_TREE
    }
}

impl Diagnostic for UnresolvedImport {
    open spec fn spec_code(&self) -> Seq<char> {
        "unresolved-import"@
    }

    open spec fn spec_message(&self) -> Seq<char> {
        "unresolved import"@
    }

    open spec fn spec_file(&self) -> FileIdentity {
        self.file
    }

    open spec fn spec_target_kind(&self) -> u32 {
        self.node.ptr.kind
    }

    open spec fn spec_target_path(&self) -> Seq<usize> {
        self.node.ptr.path@
    }

    open spec fn spec_experimental(&self) -> bool {
        true
    }

    fn code(&self) -> (c: DiagnosticCode) {
        DiagnosticCode { text: "unresolved-import" }
    }

    fn message(&self) -> (m: String) {
        "unresolved import".to_owned()
    }

    fn display_source(&self) -> (a: SourceAnchor) {
        SourceAnchor { file: self.file, ptr: self.node.to_untyped() }
    }

    fn is_experimental(&self) -> (b: bool) {
        true
    }
}

/// A syntax subtree whose enclosing conditional-compilation attribute
/// evaluated to "excluded". Emitted once per excluded subtree; the message
/// stays generic on purpose — saying why the condition was false is an
/// acknowledged limitation.
#[derive(Debug)]
pub struct InactiveCode {
    pub file: FileIdentity,
    /// The excluded subtree; any node, so the pointer is untyped.
    pub node: StablePointer,
}

impl Diagnostic for InactiveCode {
    open spec fn spec_code(&self) -> Seq<char> {
        "inactive-code"@
    }

    open spec fn spec_message(&self) -> Seq<char> {
        "code is inactive due to conditional-compilation directives"@
    }

    open spec fn spec_file(&self) -> FileIdentity {
        self.file
    }

    open spec fn spec_target_kind(&self) -> u32 {
        self.node.kind
    }

    open spec fn spec_target_path(&self) -> Seq<usize> {
        self.node.path@
    }

    open spec fn spec_experimental(&self) -> bool {
        false
    }

    fn code(&self) -> (c: DiagnosticCode) {
        DiagnosticCode { text: "inactive-code" }
    }

    fn message(&self) -> (m: String) {
        "code is inactive due to conditional-compilation directives".to_owned()
    }

    fn display_source(&self) -> (a: SourceAnchor) {
        SourceAnchor { file: self.file, ptr: self.node.duplicate() }
    }

    fn is_experimental(&self) -> (b: bool) {
        false
    }
}

} // verus!
