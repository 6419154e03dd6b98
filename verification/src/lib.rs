//! The decision and bookkeeping logic of a provider that runs network nodes
//! inside the Shadow network simulator, where each simulated host runs an
//! HTTP agent that spawns and controls the node's process.

pub mod client;
pub mod encoding;
pub mod namespace;
pub mod node;
pub mod provider;
pub mod registry;
pub mod text;
pub mod types;
