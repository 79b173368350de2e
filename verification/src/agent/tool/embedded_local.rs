//! Tools that run inside the agent's process.
pub mod fs;
pub mod memory;
pub mod subagent;
pub mod web;
