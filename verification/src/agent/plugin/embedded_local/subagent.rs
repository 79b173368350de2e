//! The plugin that lets an agent delegate tasks to sub-agents.
use vstd::prelude::*;

use std::path::PathBuf;


verus! {

/// Provides the delegating tool, configured with a default model, a most
/// number of tasks per call, and the directory the sub-agents' file tools
/// work under.
#[derive(Debug)]
pub struct SubagentPlugin {
    default_model: String,
    max_tasks: usize,
    tools_base_dir: PathBuf,
}

pub fn subagent_plugin(default_model: String, max_tasks: usize, tools_base_dir: PathBuf) -> (r: SubagentPlugin)
    ensures
        r.default_model() == default_model@,
        r.max_tasks() == max_tasks,
        r.tools_base_dir() == tools_base_dir,
{
    SubagentPlugin::new(default_model, max_tasks, tools_base_dir)
}

impl SubagentPlugin {
    pub fn new(default_model: String, max_tasks: usize, tools_base_dir: PathBuf) -> (r: Self)
        ensures
            r.default_model() == default_model@,
            r.max_tasks() == max_tasks,
            r.tools_base_dir() == tools_base_dir,
    {
        Self { default_model, max_tasks, tools_base_dir }
    }

    pub closed spec fn default_model(&self) -> Seq<char> {
        self.default_model@
    }

    pub closed spec fn max_tasks(&self) -> usize {
        self.max_tasks
    }

    pub closed spec fn tools_base_dir(&self) -> PathBuf {
        self.tools_base_dir
    }

    /// The model sub-agents run on when a call names none.
    pub fn default_model_str(&self) -> (r: &str)
        ensures
            r@ == self.default_model(),
    {
        self.default_model.as_str()
    }

    /// The most tasks one call may hand out.
    pub fn max_tasks_value(&self) -> (r: usize)
        ensures
            r == self.max_tasks(),
    {
        self.max_tasks
    }

    /// The directory the sub-agents' file tools work under.
    pub fn tools_base_dir_path(&self) -> (r: &PathBuf)
        ensures
            *r == self.tools_base_dir(),
    {
        &self.tools_base_dir
    }
}

} // verus!
