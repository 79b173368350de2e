use std::path::PathBuf;

use poprako::agent::tool::embedded_local::memory::{
    generate_shard, modify_shard, parse_tags, shard_file, shard_list_message, split_frontmatter,
    GenerateMemoryShardTool, ModifyMemoryShardTool, ShardMeta,
};
use poprako::agent::tool::result::ExecutionError;
use poprako::json::{JsonNumber, JsonValue, ParsedArgs};

fn s(x: &str) -> JsonValue {
    JsonValue::String(x.to_string())
}

fn obj(pairs: Vec<(&str, JsonValue)>) -> ParsedArgs {
    Ok(JsonValue::Object(pairs.into_iter().map(|(k, v)| (k.to_string(), v)).collect()))
}

fn message(e: ExecutionError) -> String {
    match e {
        ExecutionError::ArgsSchema { message } | ExecutionError::ExecFail { message } => message,
        ExecutionError::UserAbort => "abort".to_string(),
    }
}

fn meta(name: &str) -> ShardMeta {
    ShardMeta { name: name.to_string(), description: "test".to_string(), tags: vec!["test".to_string()] }
}

fn stored_body(file: &str) -> String {
    let (_, body) = split_frontmatter(file).unwrap();
    body.trim_start().to_string()
}

fn test_shard(name: &str, body: &str) -> String {
    format!("---\nname: {}\ndescription: test\ntags:\n  - test\n---\n\n{}", name, body)
}

fn modify(body: &str, start: u64, end: u64, text: &str) -> Result<(String, String), ExecutionError> {
    let raw = test_shard("test", body);
    let (_, after) = split_frontmatter(&raw).unwrap();
    modify_shard("test", &meta("test"), &after, start, end, text)
}

#[test]
fn memory_tool_definition_is_correct() {
    let tool = GenerateMemoryShardTool::new(PathBuf::from("/tmp"));
    let def = tool.defination();

    assert_eq!(def.name, "generate_memory_shard");
    assert_eq!(def.strict, Some(true));
    assert!(def.parameters.props.contains_key("shard_name"));
    assert!(def.parameters.props.contains_key("display_name"));
    assert!(def.parameters.props.contains_key("description"));
    assert!(def.parameters.props.contains_key("tags"));
    assert!(def.parameters.props.contains_key("content"));
    assert_eq!(
        def.parameters.required,
        Some(vec![
            "shard_name".to_string(),
            "display_name".to_string(),
            "description".to_string(),
            "tags".to_string(),
            "content".to_string(),
        ])
    );
}

#[test]
fn modify_tool_definition_is_correct() {
    let tool = ModifyMemoryShardTool::new(PathBuf::from("/tmp"));
    let def = tool.defination();

    assert_eq!(def.name, "modify_memory_shard");
    assert_eq!(def.strict, Some(true));
    assert!(def.parameters.props.contains_key("shard_name"));
    assert!(def.parameters.props.contains_key("start_line"));
    assert!(def.parameters.props.contains_key("end_line"));
    assert!(def.parameters.props.contains_key("new_text"));
}

fn generate_args(content: &str) -> ParsedArgs {
    obj(vec![
        ("shard_name", s("test-topic")),
        ("display_name", s("Test Topic")),
        ("description", s("A test shard")),
        ("tags", s("test,example")),
        ("content", s(content)),
    ])
}

#[test]
fn create_shard_writes_front_matter_and_body() {
    let w = generate_shard(&generate_args("This is the shard body.")).unwrap();
    assert_eq!(w.shard_name, "test-topic");
    assert!(w.file_text.contains("name: Test Topic"));
    assert!(w.file_text.contains("description: A test shard"));
    assert!(w.file_text.contains("  - test"));
    assert!(w.file_text.contains("  - example"));
    assert!(w.file_text.contains("This is the shard body."));
    assert_eq!(
        w.file_text,
        "---\nname: Test Topic\ndescription: A test shard\ntags:\n  - test\n  - example\n---\n\nThis is the shard body."
    );
    assert_eq!(
        w.reply,
        "Successfully created memory shard 'test-topic' at memory/shards/test-topic/shard.md (23 characters)"
    );
    assert_eq!(stored_body(&w.file_text), "This is the shard body.");
}

#[test]
fn reject_content_over_1024_chars() {
    let err = generate_shard(&generate_args(&"x".repeat(1025))).unwrap_err();
    let msg = message(err);
    assert!(msg.contains("1024"));
    assert_eq!(
        msg,
        "Content exceeds 1024 character limit (actual: 1025 characters). Please shorten the content and try again."
    );
}

#[test]
fn content_at_exactly_1024_chars_is_accepted() {
    assert!(generate_shard(&generate_args(&"x".repeat(1024))).is_ok());
}

#[test]
fn reject_missing_fields() {
    let err = generate_shard(&obj(vec![("shard_name", s("test"))])).unwrap_err();
    assert_eq!(message(err), "Missing required field 'display_name'");
}

#[test]
fn tags_are_trimmed_and_blank_ones_dropped() {
    assert_eq!(parse_tags(" a , ,b,,  c  "), vec!["a", "b", "c"]);
    assert_eq!(parse_tags(""), Vec::<String>::new());
}

#[test]
fn modify_replace_single_line() {
    let (file, reply) = modify("line1\nline2\nline3", 2, 2, "replaced").unwrap();
    assert_eq!(stored_body(&file), "line1\nreplaced\nline3");
    assert!(reply.starts_with("Successfully modified shard 'test'. Body changed from 3 to 3 lines."));
}

#[test]
fn modify_replace_range() {
    let (file, _) = modify("a\nb\nc\nd\ne", 2, 4, "x\\ny").unwrap();
    assert_eq!(stored_body(&file), "a\nx\ny\ne");
}

#[test]
fn modify_append() {
    let (file, reply) = modify("line1", 1, 0, "line2").unwrap();
    assert_eq!(stored_body(&file), "line1\nline2");
    assert!(reply.contains("Body changed from 1 to 2 lines."));
}

#[test]
fn modify_rejects_overflow() {
    let err = modify("short", 1, 1, &"x".repeat(1025)).unwrap_err();
    assert_eq!(
        message(err),
        "Modified body would be 1025 characters, exceeding the 1024 character limit. Please shorten the replacement and try again."
    );
}

#[test]
fn modify_rejects_invalid_line_numbers() {
    assert_eq!(message(modify("a\nb", 2, 1, "x").unwrap_err()), "end_line 1 must be >= start_line 2");
    assert_eq!(
        message(modify("a\nb", 10, 10, "x").unwrap_err()),
        "start_line 10 is out of range (body has 2 lines)"
    );
    assert_eq!(message(modify("a\nb", 0, 1, "x").unwrap_err()), "start_line 0 is out of range (body has 2 lines)");
    assert_eq!(message(modify("a\nb", 3, 3, "x").unwrap_err()), "end_line 3 is out of range (body has 2 lines)");
}

#[test]
fn modify_args_are_checked_in_order() {
    let tool = ModifyMemoryShardTool::new(PathBuf::from("/tmp"));
    let args = obj(vec![
        ("shard_name", s("test")),
        ("start_line", JsonValue::Number(JsonNumber::from_u64(2))),
        ("end_line", JsonValue::Number(JsonNumber::from_u64(3))),
        ("new_text", s("t")),
    ]);
    let a = tool.check_args(&args).unwrap();
    assert_eq!((a.shard_name.as_str(), a.start_line, a.end_line, a.new_text.as_str()), ("test", 2, 3, "t"));
    let bad = obj(vec![("shard_name", s("test")), ("start_line", s("2"))]);
    assert_eq!(message(tool.check_args(&bad).unwrap_err()), "Missing required field 'start_line'");
}

#[test]
fn front_matter_is_split_at_the_fences() {
    let (yaml, body) = split_frontmatter("---\nname: x\n---\n\nbody").unwrap();
    assert_eq!(yaml, "name: x");
    assert_eq!(body, "\n\nbody");
    assert_eq!(split_frontmatter("no fences").unwrap_err(), "missing YAML front-matter start `---`");
    assert_eq!(split_frontmatter("---\nname: x").unwrap_err(), "missing YAML front-matter end `---`");
}

#[test]
fn shard_file_reads_back_its_body() {
    let file = shard_file("N", "D", &vec!["t1".to_string(), "t2".to_string()], "  body\nmore");
    assert_eq!(file, "---\nname: N\ndescription: D\ntags:\n  - t1\n  - t2\n---\n\n  body\nmore");
    assert_eq!(stored_body(&file), "body\nmore");
}

#[test]
fn shard_listing_lines() {
    let metas = vec![
        ShardMeta { name: "A".into(), description: "first".into(), tags: vec!["x".into(), "y".into()] },
        ShardMeta { name: "B".into(), description: "second".into(), tags: vec![] },
    ];
    assert_eq!(shard_list_message(&metas), "- **A**: first [tags: x, y]\n- **B**: second [tags: ]");
    assert_eq!(shard_list_message(&vec![]), "No memory shards found.");
}

#[test]
fn shard_size_is_counted_in_characters() {
    let w = generate_shard(&generate_args(&"中".repeat(400))).unwrap();
    assert!(w.reply.ends_with("(400 characters)"));
    assert!(generate_shard(&generate_args(&"中".repeat(1024))).is_ok());
    let err = generate_shard(&generate_args(&"中".repeat(1025))).unwrap_err();
    assert_eq!(
        message(err),
        "Content exceeds 1024 character limit (actual: 1025 characters). Please shorten the content and try again."
    );
    assert!(modify("short", 1, 1, &"中".repeat(1000)).is_ok());
    assert_eq!(
        message(modify("short", 1, 1, &"中".repeat(1025)).unwrap_err()),
        "Modified body would be 1025 characters, exceeding the 1024 character limit. Please shorten the replacement and try again."
    );
}

#[test]
fn a_shard_lives_in_its_own_directory_under_shards() {
    let memory = std::path::PathBuf::from("/data/memory");
    let shards = poprako::agent::tool::embedded_local::memory::shards_dir_of(&memory);
    assert_eq!(shards, std::path::PathBuf::from("/data/memory/shards"));
    let dir = poprako::agent::tool::embedded_local::memory::shard_dir_of(&shards, "rust-tips");
    assert_eq!(dir, std::path::PathBuf::from("/data/memory/shards/rust-tips"));
    assert_eq!(
        poprako::agent::tool::embedded_local::memory::shard_file_in(&dir),
        std::path::PathBuf::from("/data/memory/shards/rust-tips/shard.md")
    );
    assert_eq!(
        poprako::agent::tool::embedded_local::memory::shard_file_of(&shards, "rust-tips"),
        std::path::PathBuf::from("/data/memory/shards/rust-tips/shard.md")
    );
}
