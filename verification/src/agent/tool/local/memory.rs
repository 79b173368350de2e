//! The shard tools of the first generation: listing and recalling, with the
//! same rules as their successors.
use vstd::prelude::*;

use std::path::PathBuf;

use crate::agent::tool::embedded_local::memory::{
    is_list_shards_definition, is_recall_definition, list_shards_definition, path_join,
    recall_check_args, recall_definition, shard_name_arg, shards_dir_of,
};
use crate::agent::tool::result::{ExecutionError, ExecutionErrorView};
use crate::json::ParsedArgs;
use crate::resolver::tool::ToolDef;

verus! {

/// Lists the shards under `<memory dir>/shards`.
pub struct ListMemoryShardsTool {
    shards_dir: PathBuf,
}

impl ListMemoryShardsTool {
    pub fn new(memory_dir: PathBuf) -> (r: Self)
        ensures
            r.shards_dir() == path_join(memory_dir, "shards"@),
    {
        Self { shards_dir: shards_dir_of(&memory_dir) }
    }

    pub closed spec fn shards_dir(&self) -> PathBuf {
        self.shards_dir
    }

    /// The directory the shards live in.
    pub fn shards_dir_path(&self) -> (r: &PathBuf)
        ensures
            *r == self.shards_dir(),
    {
        &self.shards_dir
    }

    pub fn def(&self) -> (r: ToolDef)
        ensures
            is_list_shards_definition(r),
    {
        list_shards_definition()
    }
}

/// Recalls one shard under `<memory dir>/shards`.
pub struct RecallMemoryShardTool {
    shards_dir: PathBuf,
}

impl RecallMemoryShardTool {
    pub fn new(memory_dir: PathBuf) -> (r: Self)
        ensures
            r.shards_dir() == path_join(memory_dir, "shards"@),
    {
        Self { shards_dir: shards_dir_of(&memory_dir) }
    }

    pub closed spec fn shards_dir(&self) -> PathBuf {
        self.shards_dir
    }

    /// The directory the shards live in.
    pub fn shards_dir_path(&self) -> (r: &PathBuf)
        ensures
            *r == self.shards_dir(),
    {
        &self.shards_dir
    }

    pub fn def(&self) -> (r: ToolDef)
        ensures
            is_recall_definition(r),
    {
        recall_definition()
    }

    /// Reads the arguments of a call; see [`shard_name_arg`].
    pub fn check_args(&self, args: &ParsedArgs) -> (r: Result<String, ExecutionError>)
        ensures
            match r {
                Ok(n) => shard_name_arg(*args) == Ok::<Seq<char>, ExecutionErrorView>(n@),
                Err(e) => shard_name_arg(*args) == Err::<Seq<char>, ExecutionErrorView>(e@),
            },
    {
        recall_check_args(args)
    }
}

} // verus!
