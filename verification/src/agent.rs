//! The agent: what it keeps in its context, and the tools and plugins it is
//! built from.
pub mod compact;
pub mod evaluate;
pub mod interceptor;
pub mod persist;
pub mod plugin;
pub mod tool;
pub mod tools;
