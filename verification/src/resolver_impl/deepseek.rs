//! The DeepSeek V4 chat-completions provider: its message types and how a
//! completion choice becomes an action.
pub mod choice;
pub mod data_object;
pub mod http;
pub mod message;
pub mod request;
pub mod tool;
