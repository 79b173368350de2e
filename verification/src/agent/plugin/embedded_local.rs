//! Plugins whose tools run inside the agent's process.
pub mod memory_shard;
pub mod subagent;
pub mod websearch;
