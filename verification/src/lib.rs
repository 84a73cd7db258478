//! Core of a source-to-source transformation plugin's entry point.
//!
//! The host compiler hands the plugin one parsed program and one bundle of
//! per-invocation metadata.  This crate resolves which transform rules the
//! metadata's configuration payload enables, wraps the host's position table
//! in a shared handle for the length of the call, runs exactly one mutating
//! pass over the program tree, and hands the tree back.  Every invocation
//! either fully succeeds or aborts; no partial output is ever produced.

pub mod config;
pub mod entry;
pub mod errors;
pub mod invoker;
pub mod payload;
pub mod positions;
pub mod tree;
