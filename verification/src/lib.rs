//! An agent toolkit for chat models, verified: messages, contexts and tool
//! definitions; the decisions of the agent loop; the tools' argument
//! checking and replies; memory shards; remote tools; prompt rendering; and
//! the session store's checkpoint plans and codecs.
pub mod text;
pub mod prompt;
pub mod resolver;
pub mod resolver_impl;
pub mod agent;
pub mod json;
pub mod lines;
pub mod session;
