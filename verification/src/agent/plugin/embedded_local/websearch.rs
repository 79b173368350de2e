//! The plugin that gives an agent web search, when an API key is
//! configured.
use vstd::prelude::*;

use crate::agent::tool::embedded_local::web::WebSearchTool;

verus! {

/// Provides the search tool when there is an API key.
#[derive(Debug, Clone, Copy, Default)]
pub struct WebSearchPlugin;

pub fn websearch_plugin() -> WebSearchPlugin {
    WebSearchPlugin
}

impl WebSearchPlugin {
    /// The tools the plugin provides given the configured API key: the
    /// search tool with that key, or none without a key.
    pub fn tools_for_key(&self, api_key: Option<String>) -> (r: Vec<WebSearchTool>)
        ensures
            match api_key {
                Some(k) => r@.len() == 1 && r@[0].api_key() == k@,
                None => r@.len() == 0,
            },
    {
        match api_key {
            Some(k) => vec![WebSearchTool::new(k)],
            None => Vec::new(),
        }
    }
}

} // verus!
