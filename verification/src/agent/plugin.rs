//! Plugins: bundles of tools, interceptors and system-prompt text an agent
//! is built with.
pub mod embedded_local;
