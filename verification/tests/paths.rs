use std::path::PathBuf;

use poprako::agent::plugin::embedded_local::memory_shard::{MemoryShardInterceptor, MemoryShardPlugin};
use poprako::agent::tool::embedded_local::fs::CreateFileTool;
use poprako::agent::tool::local::memory::{
    ListMemoryShardsTool as FirstListTool, RecallMemoryShardTool as FirstRecallTool,
};
use poprako::agent::tool::embedded_local::memory::{
    shards_dir_of, ListMemoryShardsTool, RecallMemoryShardTool,
};
use poprako::resolver_impl::deepseek::data_object::DeepSeekMessage;

#[test]
fn memory_tools_work_under_the_shards_directory() {
    let memory = PathBuf::from("memory");
    assert_eq!(shards_dir_of(&memory), PathBuf::from("memory/shards"));
    assert_eq!(
        ListMemoryShardsTool::new(memory.clone()).shards_dir_path(),
        &PathBuf::from("memory/shards")
    );
    assert_eq!(
        RecallMemoryShardTool::new(memory.clone()).shards_dir_path(),
        &PathBuf::from("memory/shards")
    );
    assert_eq!(
        FirstListTool::new(memory.clone()).shards_dir_path(),
        &PathBuf::from("memory/shards")
    );
    assert_eq!(
        FirstRecallTool::new(memory.clone()).shards_dir_path(),
        &PathBuf::from("memory/shards")
    );
    let interceptor = MemoryShardInterceptor::<DeepSeekMessage, (), ()>::new(memory.clone());
    assert_eq!(interceptor.shards_dir_path(), &PathBuf::from("memory/shards"));
    assert_eq!(MemoryShardPlugin::new(memory).memory_dir_path(), &PathBuf::from("memory"));
}

#[test]
fn created_files_are_handed_out_once_in_order() {
    let mut tool = CreateFileTool::new(PathBuf::from("/tmp/base"));
    tool.record_created(PathBuf::from("/tmp/base/a.txt"));
    tool.record_created(PathBuf::from("/tmp/base/b/c.txt"));
    assert_eq!(
        tool.take_created_files(),
        vec![PathBuf::from("/tmp/base/a.txt"), PathBuf::from("/tmp/base/b/c.txt")]
    );
    assert!(tool.take_created_files().is_empty());
    assert_eq!(tool.base_dir_path(), &PathBuf::from("/tmp/base"));
}
