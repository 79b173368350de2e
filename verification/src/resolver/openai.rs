//! Chat-completion messages in the OpenAI shape, as the library holds them.
pub mod context;
pub mod message;
pub mod tool;
