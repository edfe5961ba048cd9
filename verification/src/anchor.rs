//! File identities and source anchors.

use vstd::prelude::*;

use crate::pointer::StablePointer;
use crate::tree::{SyntaxNode, TextRange};

verus! {

/// Opaque handle naming the file a diagnostic points into: either a real
/// source file or a pseudo-file that holds the expansion of one macro call
/// site. The expansion engine owns the meaning of the carried number; this
/// crate stores the handle by value, never reads through it, and never
/// branches on which variant it is. Equal identities name the same logical
/// file within one analysis snapshot.
#[derive(Clone, Copy, Debug, PartialEq, Eq, Structural)]
pub enum FileIdentity {
    /// A file that exists in source.
    Real(u64),
    /// The pseudo-file produced by expanding the macro call site with the
    /// carried number.
    MacroExpansion(u64),
}

/// Where a diagnostic points: a file, and a position-stable pointer into
/// that file's syntax tree. Turning an anchor into a text range takes the
/// file's current tree snapshot, which the external tree store supplies.
#[derive(Debug)]
pub struct SourceAnchor {
    pub file: FileIdentity,
    pub ptr: StablePointer,
}

impl SourceAnchor {
    /// Pairs a file with a pointer into its tree.
    pub fn new(file: FileIdentity, ptr: StablePointer) -> (a: SourceAnchor)
        ensures
            a.file == file,
            a.ptr == ptr,
    {
        SourceAnchor { file, ptr }
    }

    /// Resolves the anchor against `tree`, the snapshot the caller holds for
    /// this anchor's file. Returns the range of the exact node the pointer
    /// was captured from, or `None` when that node was edited away; a `None`
    /// means the diagnostic no longer applies and is to be dropped silently.
    pub fn resolve(&self, tree: &SyntaxNode) -> (r: Option<TextRange>)
        ensures
            (r is Some) == crate::pointer::resolvable(self.ptr.kind, self.ptr.path@, *tree),
            r matches Some(range) ==> range == crate::tree::node_at(*tree, self.ptr.path@).range,
    {
        self.ptr.resolve(tree)
    }
}

} // verus!
