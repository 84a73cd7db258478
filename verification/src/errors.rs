//! The error taxonomy of one plugin invocation.
//!
//! Every variant is fatal to the invocation that raised it: nothing at this
//! layer catches, retries, or degrades to a partial result.

use vstd::prelude::*;

verus! {

/// Why an invocation aborted.
#[derive(Clone, Copy, Debug, PartialEq, Eq, Structural)]
pub enum PluginError {
    /// The invocation metadata lacks the configuration channel entirely.
    ConfigChannelMissing,
    /// A configuration payload was present but is not parseable.
    ConfigMalformed,
    /// The mutating visitor failed during its traversal.
    TransformFailure,
}

impl PluginError {
    /// The description of each error, as the host's diagnostics show it.
    pub open spec fn spec_message(self) -> Seq<char> {
        match self {
            PluginError::ConfigChannelMissing => "invocation metadata carries no configuration channel"@,
            PluginError::ConfigMalformed => "configuration payload is not parseable"@,
            PluginError::TransformFailure => "transform pass failed during traversal"@,
        }
    }

    /// A descriptive message for the host.
    pub fn message(&self) -> (m: &'static str)
        ensures
            m@ == self.spec_message(),
    {
        match self {
            PluginError::ConfigChannelMissing => "invocation metadata carries no configuration channel",
            PluginError::ConfigMalformed => "configuration payload is not parseable",
            PluginError::TransformFailure => "transform pass failed during traversal",
        }
    }
}

} // verus!
