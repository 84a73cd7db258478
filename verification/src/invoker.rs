//! The transform invoker.
//!
//! `invoke` builds the mutating tree-visitor from the resolved configuration
//! and the shared position handle, and performs exactly one depth-first
//! traversal of the program, reaching every node exactly once.  The walk is
//! in exclusive ownership: each subtree is owned solely by the step visiting
//! it.  What the rules do to a node is the transform engine's concern; here
//! the pass marks each node the enabled rules processed and attributes it to
//! its original source position through the shared table.

use std::sync::Arc;
use vstd::prelude::*;

use crate::config::Configuration;
use crate::positions::lookup_from;
use crate::positions::PositionMap;
use crate::tree::preorder_of;
use crate::tree::Node;
use crate::tree::NodeData;
use crate::tree::ProgramTree;

verus! {

/// What the pass does to one node's data: with the rules enabled, the node
/// is processed and attributed to its original source position; with the
/// rules disabled, it is left untouched.
pub open spec fn spec_step(cfg: Configuration, entries: Seq<(u64, u64)>, d: NodeData) -> NodeData {
    match cfg {
        Configuration::All(enabled) => if enabled {
            NodeData {
                kind: d.kind,
                loc: d.loc,
                attributed: lookup_from(entries, 0, d.loc),
                rewritten: true,
            }
        } else {
            d
        },
    }
}

/// The single-pass contract on one subtree: the node's data mapped by the
/// rule step, the shape kept, and the same below for children and siblings.
pub open spec fn node_transformed(
    cfg: Configuration,
    entries: Seq<(u64, u64)>,
    before: Node,
    after: Node,
) -> bool
    decreases before,
{
    &&& after.data == spec_step(cfg, entries, before.data)
    &&& opt_transformed(cfg, entries, before.child, after.child)
    &&& opt_transformed(cfg, entries, before.sibling, after.sibling)
}

/// `node_transformed`, lifted to an optional subtree.
pub open spec fn opt_transformed(
    cfg: Configuration,
    entries: Seq<(u64, u64)>,
    before: Option<Box<Node>>,
    after: Option<Box<Node>>,
) -> bool
    decreases before,
{
    match (before, after) {
        (None, None) => true,
        (Some(b), Some(a)) => node_transformed(cfg, entries, *b, *a),
        _ => false,
    }
}

/// The whole-tree contract of the single pass.
pub open spec fn tree_transformed(
    cfg: Configuration,
    entries: Seq<(u64, u64)>,
    before: ProgramTree,
    after: ProgramTree,
) -> bool {
    opt_transformed(cfg, entries, before.root, after.root)
}

/// The mutating tree-visitor of one call: the resolved configuration and the
/// shared handle on the host's position table.
pub struct RuleVisitor {
    pub config: Configuration,
    pub positions: Arc<PositionMap>,
}

impl RuleVisitor {
    /// Build the visitor for one call.
    pub fn new(config: Configuration, positions: Arc<PositionMap>) -> (v: RuleVisitor)
        ensures
            v.config == config,
            v.positions == positions,
    {
        RuleVisitor { config, positions }
    }

    /// The entries of the shared table, as the visitor reads them.
    pub open spec fn entries(self) -> Seq<(u64, u64)> {
        self.positions.entries@
    }

    /// Apply the enabled rules to one node's data.
    fn step(&self, d: NodeData) -> (r: NodeData)
        ensures
            r == spec_step(self.config, self.entries(), d),
    {
        match self.config {
            Configuration::All(enabled) => {
                if enabled {
                    let attributed = self.positions.lookup(d.loc);
                    NodeData { kind: d.kind, loc: d.loc, attributed, rewritten: true }
                } else {
                    d
                }
            },
        }
    }

    /// Visit one subtree depth-first, in exclusive ownership.
    fn visit_node(&self, n: Node) -> (r: Node)
        ensures
            node_transformed(self.config, self.entries(), n, r),
        decreases n,
    {
        let Node { data, child, sibling } = n;
        let data2 = self.step(data);
        let child2 = self.visit_opt(child);
        let sibling2 = self.visit_opt(sibling);
        Node { data: data2, child: child2, sibling: sibling2 }
    }

    /// Visit an optional subtree depth-first.
    fn visit_opt(&self, o: Option<Box<Node>>) -> (r: Option<Box<Node>>)
        ensures
            opt_transformed(self.config, self.entries(), o, r),
        decreases o,
    {
        match o {
            None => None,
            Some(b) => {
                let inner: Node = *b;
                let visited = self.visit_node(inner);
                Some(Box::new(visited))
            },
        }
    }
}

/// Perform exactly one mutating traversal of the program with the visitor
/// built from `config` and `positions`, and return the same tree, mutated.
pub fn invoke(config: Configuration, positions: Arc<PositionMap>, tree: ProgramTree) -> (r:
    ProgramTree)
    ensures
        tree_transformed(config, positions.entries@, tree, r),
{
    let visitor = RuleVisitor::new(config, positions);
    ProgramTree { root: visitor.visit_opt(tree.root) }
}

/// One full traversal, each node exactly once: the depth-first listing of
/// the transformed subtree is the node-wise image of the original listing
/// under the rule step, in the original order.
pub proof fn lemma_traversal_exactly_once(
    cfg: Configuration,
    entries: Seq<(u64, u64)>,
    before: Option<Box<Node>>,
    after: Option<Box<Node>>,
)
    requires
        opt_transformed(cfg, entries, before, after),
    ensures
        preorder_of(after) == preorder_of(before).map_values(
            |d: NodeData| spec_step(cfg, entries, d),
        ),
    decreases before,
{
    let f = |d: NodeData| spec_step(cfg, entries, d);
    match (before, after) {
        (None, None) => {
            assert(preorder_of(after) =~= preorder_of(before).map_values(f));
        },
        (Some(b), Some(a)) => {
            lemma_traversal_exactly_once(cfg, entries, b.child, a.child);
            lemma_traversal_exactly_once(cfg, entries, b.sibling, a.sibling);
            assert(preorder_of(after) =~= preorder_of(before).map_values(f));
        },
        _ => {
        },
    }
}

/// The marking pass neither removes nor inserts nodes: the traversal keeps
/// the node count.
pub proof fn lemma_traversal_keeps_node_count(
    cfg: Configuration,
    entries: Seq<(u64, u64)>,
    before: ProgramTree,
    after: ProgramTree,
)
    requires
        tree_transformed(cfg, entries, before, after),
    ensures
        after.node_count() == before.node_count(),
{
    lemma_traversal_exactly_once(cfg, entries, before.root, after.root);
}

} // verus!
