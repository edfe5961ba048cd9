//! A snapshot of a syntax tree, as supplied by the external tree store.
//!
//! The tree store owns parsing and re-parsing; this crate only walks the
//! snapshot it is given. A node carries the grammar production it was parsed
//! as, the text range it covers in its file, and its children in order.

use vstd::prelude::*;

verus! {

/// Half-open range of text covered by one node in its file.
#[derive(Clone, Copy, Debug, PartialEq, Eq, Structural)]
pub struct TextRange {
    pub start: usize,
    pub end: usize,
}

/// One node of a syntax tree snapshot.
#[derive(Debug)]
pub struct SyntaxNode {
    /// The grammar production this node was parsed as.
    pub kind: u32,
    /// The text this node covers.
    pub range: TextRange,
    /// Child nodes, in source order.
    pub children: Vec<SyntaxNode>,
}

/// Grammar production of a sub-module declaration.
pub const MODULE_DECLARATION: u32 = 1;

/// Grammar production of a declaration naming an external dependency.
pub const DEPENDENCY_DECLARATION: u32 = 2;

/// Grammar production of one tree of an import path.
pub const USE_TREE: u32 = 3;

/// Whether `path`, read as a chain of child indices, leads from `node` to a
/// node of the tree.
pub open spec fn valid_path(node: SyntaxNode, path: Seq<usize>) -> bool
    decreases path.len(),
{
    path.len() == 0 || (path[0] < node.children@.len() && valid_path(
        node.children@[path[0] as int],
        path.skip(1),
    ))
}

/// The node that `path` leads to from `node`; meaningful only when
/// `valid_path(node, path)` holds.
pub open spec fn node_at(node: SyntaxNode, path: Seq<usize>) -> SyntaxNode
    decreases path.len(),
{
    if path.len() == 0 {
        node
    } else {
        node_at(node.children@[path[0] as int], path.skip(1))
    }
}

} // verus!
