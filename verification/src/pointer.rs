//! Position-addressed pointers into a syntax tree.
//!
//! A pointer records the chain of child indices that led from the root to a
//! node, together with that node's grammar production. It holds no reference
//! into the tree itself, so it survives the tree being rebuilt: resolution
//! re-walks the recorded path against whatever snapshot the caller supplies
//! and either finds a node of the recorded production at the recorded place,
//! or reports that the pointer no longer applies.

use vstd::prelude::*;

use crate::tree::{SyntaxNode, TextRange, node_at, valid_path};

verus! {

/// Path-addressed reference into a syntax tree, valid across tree rebuilds.
#[derive(Debug)]
pub struct StablePointer {
    /// The grammar production of the node this pointer was captured from.
    pub kind: u32,
    /// The chain of child indices from the tree root to that node.
    pub path: Vec<usize>,
}

/// Whether a pointer with production `kind` and child-index chain `path`
/// finds its target in the snapshot `tree`: the path must still lead to a
/// node, and that node must still have the recorded production.
pub open spec fn resolvable(kind: u32, path: Seq<usize>, tree: SyntaxNode) -> bool {
    valid_path(tree, path) && node_at(tree, path).kind == kind
}

/// Walks `path` from position `from` on, starting at `node`, and returns the
/// node reached, or `None` when some index is out of range.
fn walk<'a>(node: &'a SyntaxNode, path: &Vec<usize>, from: usize) -> (r: Option<&'a SyntaxNode>)
    requires
        from <= path@.len(),
    ensures
        (r is Some) == valid_path(*node, path@.skip(from as int)),
        r matches Some(n) ==> *n == node_at(*node, path@.skip(from as int)),
    decreases path@.len() - from,
{
    if from == path.len() {
        proof {
            assert(path@.skip(from as int) =~= Seq::<usize>::empty());
        }
        Some(node)
    } else {
        let idx: usize = path[from];
        proof {
            assert(path@.skip(from as int)[0] == path@[from as int]);
            assert(path@.skip(from as int).skip(1) =~= path@.skip(from as int + 1));
        }
        if idx < node.children.len() {
            walk(&node.children[idx], path, from + 1)
        } else {
            None
        }
    }
}

impl StablePointer {
    /// Captures a pointer to the live node that `path` leads to in `tree`.
    /// The caller addresses a node it currently holds, so the path is valid
    /// by construction.
    pub fn capture(tree: &SyntaxNode, path: Vec<usize>) -> (p: StablePointer)
        requires
            valid_path(*tree, path@),
        ensures
            p.kind == node_at(*tree, path@).kind,
            p.path@ == path@,
    {
        proof {
            assert(path@.skip(0) =~= path@);
        }
        let target = walk(tree, &path, 0);
        match target {
            Some(n) => StablePointer { kind: n.kind, path },
            None => vstd::pervasive::unreached(),
        }
    }

    /// Re-walks the recorded path against the snapshot `tree`. Returns the
    /// text range of the exact node originally targeted when the path still
    /// leads to a node of the recorded production, and `None` otherwise —
    /// never a different node, and never a fault.
    pub fn resolve(&self, tree: &SyntaxNode) -> (r: Option<TextRange>)
        ensures
            (r is Some) == resolvable(self.kind, self.path@, *tree),
            r matches Some(range) ==> range == node_at(*tree, self.path@).range,
    {
        proof {
            assert(self.path@.skip(0) =~= self.path@);
        }
        match walk(tree, &self.path, 0) {
            Some(n) => {
                if n.kind == self.kind {
                    Some(n.range)
                } else {
                    None
                }
            },
            None => None,
        }
    }

    /// A copy of this pointer, addressing the same place.
    pub fn duplicate(&self) -> (r: StablePointer)
        ensures
            r.kind == self.kind,
            r.path@ == self.path@,
    {
        let copied: Vec<usize> = self.path.clone();
        proof {
            assert forall|i: int| 0 <= i < self.path@.len() implies copied@[i]
                == self.path@[i] by {
                assert(cloned::<usize>(self.path[i], copied[i]));
            }
            assert(copied@ =~= self.path@);
        }
        StablePointer { kind: self.kind, path: copied }
    }
}

/// The typed flavor of a pointer: one constrained at capture time to a
/// specific grammar production, such as a module declaration. It normalizes
/// to the untyped form for storage, so diagnostics of different kinds can be
/// compared by position without knowing what each one points at.
#[derive(Debug)]
pub struct TypedPointer {
    /// The grammar production this pointer is constrained to.
    pub production: u32,
    /// The stored untyped form.
    pub ptr: StablePointer,
}

impl TypedPointer {
    /// The constraint the typed flavor adds: the captured node's production
    /// is the one the pointer is constrained to.
    pub open spec fn wf(&self) -> bool {
        self.ptr.kind == self.production
    }

    /// Captures a pointer to the live node that `path` leads to in `tree`,
    /// constrained to `production`, the grammar production that node was
    /// parsed as.
    pub fn capture(tree: &SyntaxNode, path: Vec<usize>, production: u32) -> (p: TypedPointer)
        requires
            valid_path(*tree, path@),
            node_at(*tree, path@).kind == production,
        ensures
            p.production == production,
            p.ptr.kind == production,
            p.ptr.path@ == path@,
            p.wf(),
    {
        TypedPointer { production, ptr: StablePointer::capture(tree, path) }
    }

    /// The untyped form under which this pointer is stored and compared.
    pub fn to_untyped(&self) -> (r: StablePointer)
        ensures
            r.kind == self.ptr.kind,
            r.path@ == self.ptr.path@,
    {
        self.ptr.duplicate()
    }
}

/// Law: a pointer captured from a live node resolves, against the snapshot
/// it was captured from, to exactly that node; against any snapshot in which
/// its path no longer leads to a node of its production — the node was
/// edited away — it is unresolvable.
pub proof fn lemma_snapshot_stability(tree: SyntaxNode, path: Seq<usize>, later: SyntaxNode)
    requires
        valid_path(tree, path),
    ensures
        resolvable(node_at(tree, path).kind, path, tree),
        !(valid_path(later, path) && node_at(later, path).kind == node_at(tree, path).kind)
            ==> !resolvable(node_at(tree, path).kind, path, later),
{
}

} // verus!
