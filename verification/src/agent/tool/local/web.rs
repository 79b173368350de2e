//! The search tool of the first generation, which is the current one.
pub use crate::agent::tool::embedded_local::web::WebSearchTool;
