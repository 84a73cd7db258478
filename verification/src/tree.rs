//! The program tree.
//!
//! The root of the syntax tree of one compilation unit, as the adapter
//! observes it.  A node carries opaque content, a location key into the
//! position table, and the marks the pass leaves; children and siblings hang
//! off it in first-child / next-sibling form, which represents any tree.
//! Every tree is exclusively owned by the invocation that holds it.

use vstd::prelude::*;

verus! {

/// The per-node content the adapter observes.
#[derive(Clone, Copy, Debug, PartialEq, Eq)]
pub struct NodeData {
    /// Opaque content of the node; never interpreted by the adapter.
    pub kind: u64,
    /// Location key, correlated with source positions by the position table.
    pub loc: u64,
    /// The original source position the pass attributed to the node.
    pub attributed: Option<u64>,
    /// Whether the enabled rules have processed the node.
    pub rewritten: bool,
}

/// One syntax-tree node: its data, its first child, and its next sibling.
#[derive(Debug, PartialEq, Eq)]
pub struct Node {
    pub data: NodeData,
    pub child: Option<Box<Node>>,
    pub sibling: Option<Box<Node>>,
}

/// The root of the syntax tree of one compilation unit; mutated in place by
/// the pass and handed back to the host at the end of the call.
#[derive(Debug, PartialEq, Eq)]
pub struct ProgramTree {
    pub root: Option<Box<Node>>,
}

/// The depth-first listing of a subtree: the node itself, then its children,
/// then its siblings.
pub open spec fn preorder_of(o: Option<Box<Node>>) -> Seq<NodeData>
    decreases o,
{
    match o {
        None => Seq::empty(),
        Some(n) => seq![n.data] + preorder_of(n.child) + preorder_of(n.sibling),
    }
}

impl ProgramTree {
    /// The depth-first listing of every node of the tree.
    pub open spec fn preorder(self) -> Seq<NodeData> {
        preorder_of(self.root)
    }

    /// How many nodes the tree holds.
    pub open spec fn node_count(self) -> nat {
        self.preorder().len()
    }
}

} // verus!
