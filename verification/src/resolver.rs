//! The resolver layer: what a model is asked (messages, tool definitions)
//! and what it answers (an action).
pub mod action;
pub mod context;
pub mod message;
pub mod openai;
pub mod result;
pub mod schema;
pub mod tool;
