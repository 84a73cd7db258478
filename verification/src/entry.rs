//! The plugin entry point.
//!
//! `transform` is the boundary operation the host calls once per compilation
//! unit: it reads the configuration channel from the invocation metadata,
//! resolves the configuration, derives the shared position handle, runs the
//! transform pass, and leaves the mutated tree for the host.  Resolution
//! failures abort the invocation before the invoker is built, and an aborted
//! invocation leaves the program untouched.

use vstd::prelude::*;

use crate::config::resolve;
use crate::config::spec_resolve;
use crate::config::Configuration;
use crate::errors::PluginError;
use crate::invoker::invoke;
use crate::invoker::lemma_traversal_exactly_once;
use crate::invoker::spec_step;
use crate::invoker::tree_transformed;
use crate::positions::PositionMap;
use crate::tree::NodeData;
use crate::tree::ProgramTree;

verus! {

/// The content of the configuration channel: the JSON-encoded payload, which
/// may legitimately be absent.
#[derive(Debug, PartialEq, Eq)]
pub struct ConfigChannel {
    pub payload: Option<String>,
}

/// The per-invocation bundle the host supplies: the configuration channel,
/// when the host provides one at all, and the location table.
#[derive(Debug, PartialEq, Eq)]
pub struct InvocationMetadata {
    /// The configuration channel; a host that provides none at all makes
    /// the invocation abort.
    pub plugin_config: Option<ConfigChannel>,
    /// The host's table from tree locations to original source positions.
    pub source_map: PositionMap,
}

impl InvocationMetadata {
    /// The payload carried by the configuration channel, at spec level.
    pub open spec fn spec_plugin_config(self) -> Option<Seq<char>>
        recommends
            self.plugin_config is Some,
    {
        match self.plugin_config {
            Some(ch) => match ch.payload {
                None => None,
                Some(s) => Some(s@),
            },
            None => None,
        }
    }

    /// Whether the host provided the configuration channel at all.
    pub fn has_config_channel(&self) -> (b: bool)
        ensures
            b == (self.plugin_config is Some),
    {
        match &self.plugin_config {
            Some(_) => true,
            None => false,
        }
    }

    /// The configuration payload, read from the channel.
    pub fn get_plugin_config(&self) -> (r: Option<&String>)
        requires
            self.plugin_config is Some,
        ensures
            match r {
                None => self.spec_plugin_config() is None,
                Some(s) => self.spec_plugin_config() == Some(s@),
            },
    {
        match &self.plugin_config {
            Some(ch) => match &ch.payload {
                Some(s) => Some(s),
                None => None,
            },
            None => None,
        }
    }
}

/// What configuration resolution decides for one invocation's metadata: the
/// configuration to run with, or the error that aborts the call.
pub open spec fn spec_resolution(m: InvocationMetadata) -> Result<Configuration, PluginError> {
    if m.plugin_config is None {
        Err(PluginError::ConfigChannelMissing)
    } else {
        spec_resolve(m.spec_plugin_config())
    }
}

/// The entry point: run one invocation over `program` with `metadata`.
///
/// On success the program has been mutated by exactly one pass under the
/// resolved configuration, with source positions attributed through the
/// metadata's own table.  If resolution aborts, the invoker is never run and
/// the program is left exactly as it was.
pub fn transform(program: &mut ProgramTree, metadata: InvocationMetadata) -> (r: Result<
    (),
    PluginError,
>)
    ensures
        match spec_resolution(metadata) {
            Ok(cfg) => r is Ok && tree_transformed(
                cfg,
                metadata.source_map.entries@,
                *old(program),
                *final(program),
            ),
            Err(e) => r == Err::<(), PluginError>(e) && *final(program) == *old(program),
        },
{
    if !metadata.has_config_channel() {
        return Err(PluginError::ConfigChannelMissing);
    }
    let cfg = match resolve(
        match metadata.get_plugin_config() {
            None => None,
            Some(s) => Some(s.as_str()),
        },
    ) {
        Ok(c) => c,
        Err(e) => {
            return Err(e);
        },
    };
    let handle = metadata.source_map.into_shared();
    let root = program.root.take();
    let mutated = invoke(cfg, handle, ProgramTree { root });
    program.root = mutated.root;
    Ok(())
}

/// End to end, exactly one pass: when resolution of the metadata succeeds,
/// the invocation's tree holds exactly the original nodes, each processed
/// once under the resolved configuration, in the original depth-first order.
pub proof fn lemma_invocation_single_pass(
    m: InvocationMetadata,
    before: ProgramTree,
    after: ProgramTree,
)
    requires
        spec_resolution(m) is Ok,
        tree_transformed(spec_resolution(m)->Ok_0, m.source_map.entries@, before, after),
    ensures
        after.preorder() == before.preorder().map_values(
            |d: NodeData| spec_step(spec_resolution(m)->Ok_0, m.source_map.entries@, d),
        ),
{
    lemma_traversal_exactly_once(
        spec_resolution(m)->Ok_0,
        m.source_map.entries@,
        before.root,
        after.root,
    );
}

/// Short-circuit on aborted resolution: when resolution of the metadata
/// aborts, that error is the invocation's entire outcome — the invoker never
/// runs, so no transformed tree can be observed.
pub proof fn lemma_abort_short_circuits(m: InvocationMetadata)
    ensures
        m.plugin_config is None ==> spec_resolution(m) == Err::<Configuration, PluginError>(
            PluginError::ConfigChannelMissing,
        ),
        (m.plugin_config is Some && spec_resolve(m.spec_plugin_config()) is Err)
            ==> spec_resolution(m) == Err::<Configuration, PluginError>(
            PluginError::ConfigMalformed,
        ),
{
}

} // verus!
