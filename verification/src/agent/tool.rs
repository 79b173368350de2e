//! Tools the agent can call.
pub mod embedded_local;
pub mod local;
pub mod path;
pub mod remote;
pub mod result;
