//! The position-mapping table and its shared handle.
//!
//! The host supplies, per invocation, an opaque table correlating tree
//! locations with original source positions.  The entry point wraps it in a
//! shared-ownership handle so the visitor can attribute modified nodes to
//! source spans without deep-copying the table.  The plugin never writes to
//! it, and each invocation constructs its own handle.

use std::sync::Arc;
use vstd::prelude::*;

verus! {

/// The host-supplied table from tree locations to original source positions.
#[derive(Clone, Debug, PartialEq, Eq)]
pub struct PositionMap {
    /// Location / source-position pairs, in the host's order.
    pub entries: Vec<(u64, u64)>,
}

/// The source position recorded for `loc` among `entries`, from entry `i`
/// on; the first matching entry wins.
pub open spec fn lookup_from(entries: Seq<(u64, u64)>, i: int, loc: u64) -> Option<u64>
    decreases entries.len() - i,
{
    if i < 0 || i >= entries.len() {
        None
    } else if entries[i].0 == loc {
        Some(entries[i].1)
    } else {
        lookup_from(entries, i + 1, loc)
    }
}

impl PositionMap {
    /// The source position the table records for `loc`, at spec level.
    pub open spec fn spec_lookup(self, loc: u64) -> Option<u64> {
        lookup_from(self.entries@, 0, loc)
    }

    /// The original source position recorded for location `loc`.
    pub fn lookup(&self, loc: u64) -> (r: Option<u64>)
        ensures
            r == self.spec_lookup(loc),
    {
        let n = self.entries.len();
        let mut i: usize = 0;
        while i < n
            invariant
                0 <= i <= n,
                n == self.entries@.len(),
                lookup_from(self.entries@, 0, loc) == lookup_from(self.entries@, i as int, loc),
            decreases n - i,
        {
            let e = self.entries[i];
            if e.0 == loc {
                return Some(e.1);
            }
            i = i + 1;
        }
        None
    }

    /// Wrap the table in a shared-ownership handle for the length of one
    /// call, without copying it.
    pub fn into_shared(self) -> (h: Arc<PositionMap>)
        ensures
            h == self,
    {
        Arc::new(self)
    }
}

/// Handle isolation: each invocation derives its own handle from its own
/// metadata, so the handles of two invocations whose tables differ are never
/// the same handle.
pub proof fn lemma_handle_isolation(
    h1: Arc<PositionMap>,
    h2: Arc<PositionMap>,
    t1: PositionMap,
    t2: PositionMap,
)
    requires
        h1 == t1,
        h2 == t2,
        t1.entries@ != t2.entries@,
    ensures
        h1 != h2,
{
}

} // verus!
