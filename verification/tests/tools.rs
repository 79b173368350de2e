use poprako::agent::tool::embedded_local::web::is_url;
use std::path::PathBuf;

use poprako::agent::tool::embedded_local::fs::{
    format_listing, CreateFileTool as EmbeddedCreateFileTool, ListFilesTool, ReadFileTool as EmbeddedReadFileTool,
};
use poprako::agent::tool::embedded_local::subagent::{format_results, is_supported_model, RunSubagentsTool};
use poprako::agent::tool::embedded_local::web::{
    fetch_report, format_results as format_search_results, truncate_content, TavilyResult, WebFetchTool, WebSearchTool,
};
use poprako::agent::tool::local::fs::{CreateFileTool, ReadFileTool};
use poprako::agent::tool::local::web::WebSearchTool as LocalWebSearchTool;
use poprako::agent::tool::result::ExecutionError;
use poprako::agent::tools::local::{command_line_tool, command_result, command_text};
use poprako::json::{JsonNumber, JsonValue, ParsedArgs};

fn s(x: &str) -> JsonValue {
    JsonValue::String(x.to_string())
}

fn n(x: u64) -> JsonValue {
    JsonValue::Number(JsonNumber::from_u64(x))
}

fn obj(pairs: Vec<(&str, JsonValue)>) -> ParsedArgs {
    Ok(JsonValue::Object(pairs.into_iter().map(|(k, v)| (k.to_string(), v)).collect()))
}

fn message(e: ExecutionError) -> String {
    match e {
        ExecutionError::ArgsSchema { message } | ExecutionError::ExecFail { message } => message,
        ExecutionError::UserAbort => "abort".to_string(),
    }
}

#[test]
fn fs_tool_definition_is_correct() {
    let tool = CreateFileTool::new(PathBuf::from("/tmp"));
    let def = tool.def();

    assert_eq!(def.name, "create_file");
    assert_eq!(def.strict, Some(true));
    assert!(def.parameters.props.contains_key("path"));
    assert!(def.parameters.props.contains_key("content"));
    assert_eq!(def.parameters.required, Some(vec!["path".to_string(), "content".to_string()]));

    let tool = EmbeddedCreateFileTool::new(PathBuf::from("/tmp"));
    let def = tool.defination();

    assert_eq!(def.name, "create_file");
    assert_eq!(def.strict, Some(true));
    assert!(def.parameters.props.contains_key("path"));
    assert!(def.parameters.props.contains_key("content"));
    assert_eq!(def.parameters.required, Some(vec!["path".to_string(), "content".to_string()]));
}

#[test]
fn fs_read_file_tool_definition_is_correct() {
    let tool = ReadFileTool::new(PathBuf::from("/tmp"));
    let def = tool.def();

    assert_eq!(def.name, "read_file");
    assert_eq!(def.strict, Some(true));
    assert!(def.parameters.props.contains_key("path"));
    assert_eq!(def.parameters.required, Some(vec!["path".to_string()]));

    let tool = EmbeddedReadFileTool::new(PathBuf::from("/tmp"));
    let def = tool.defination();

    assert_eq!(def.name, "read_file");
    assert_eq!(def.strict, Some(true));
    assert!(def.parameters.props.contains_key("path"));
    assert_eq!(def.parameters.required, Some(vec!["path".to_string()]));
}

#[test]
fn list_files_tool_definition_is_correct() {
    let tool = ListFilesTool::new(PathBuf::from("/tmp"));
    let def = tool.defination();

    assert_eq!(def.name, "list_files");
    assert_eq!(def.strict, Some(true));
    assert!(def.parameters.props.contains_key("path"));
    assert_eq!(def.parameters.required, Some(vec!["path".to_string()]));
}

#[test]
fn local_tool_definition_is_correct() {
    let tool = command_line_tool();

    assert_eq!(tool.name, "command_line");
    assert!(tool.description.contains("Execute a command"));
    assert!(tool.description.contains("/bin/sh"));
    assert_eq!(tool.parameters.type_, "object");
    assert!(tool.parameters.props.contains_key("command"));
    assert_eq!(tool.parameters.required, Some(vec!["command".to_string()]));
    assert_eq!(tool.strict, Some(true));
}

#[test]
fn command_text_reads_the_command_or_falls_back_to_the_text() {
    let parsed = obj(vec![("command", s("ls -la"))]);
    assert_eq!(command_text("{\"command\":\"ls -la\"}", &parsed), "ls -la");
    let not_json: ParsedArgs = Err("expected value".to_string());
    assert_eq!(command_text("echo hi", &not_json), "echo hi");
    let other = obj(vec![("cmd", s("x"))]);
    assert_eq!(command_text("{\"cmd\":\"x\"}", &other), "{\"cmd\":\"x\"}");
}

#[test]
fn command_result_reports_failures_with_status() {
    assert_eq!(command_result(true, "0", "out".into(), "").unwrap(), "out");
    match command_result(false, "exit status: 1", String::new(), "boom") {
        Err(poprako::agent::tools::ToolError::Fail(msg)) => {
            assert_eq!(msg, "Command failed with status exit status: 1: boom")
        }
        other => panic!("unexpected {:?}", other),
    }
}

#[test]
fn create_file_args_are_checked_in_order() {
    let tool = CreateFileTool::new(PathBuf::from("/tmp"));
    let ok = tool.check_args(&obj(vec![("path", s("sub/hello.txt")), ("content", s("hello world"))])).unwrap();
    assert_eq!(ok, ("sub/hello.txt".to_string(), "hello world".to_string()));

    let traversal = tool.check_args(&obj(vec![("path", s("../../etc/passwd")), ("content", s("pwned"))]));
    assert_eq!(message(traversal.unwrap_err()), "Path traversal not allowed: path must not contain '..'");

    let no_content = tool.check_args(&obj(vec![("path", s("test.txt"))]));
    assert_eq!(message(no_content.unwrap_err()), "Missing required field 'content'");
    let no_path = tool.check_args(&obj(vec![("content", s("test"))]));
    assert_eq!(message(no_path.unwrap_err()), "Missing required field 'path'");
    let bad = tool.check_args(&Err("trailing comma".to_string()));
    assert_eq!(message(bad.unwrap_err()), "Invalid JSON args: trailing comma");
}

#[test]
fn dots_inside_names_are_not_traversal() {
    let tool = ReadFileTool::new(PathBuf::from("/tmp"));
    assert!(tool.check_args(&obj(vec![("path", s("a..b/c"))])).is_ok());
    assert!(tool.check_args(&obj(vec![("path", s("a/../b"))])).is_err());
    assert!(tool.check_args(&obj(vec![("path", s(".."))])).is_err());
}

#[test]
fn list_files_defaults_to_the_base_directory() {
    let tool = ListFilesTool::new(PathBuf::from("/tmp"));
    assert_eq!(tool.check_args(&obj(vec![("path", s(""))])).unwrap(), ".");
    assert_eq!(tool.check_args(&obj(vec![])).unwrap(), ".");
    assert_eq!(tool.check_args(&obj(vec![("path", s("sub"))])).unwrap(), "sub");
    assert!(tool.check_args(&obj(vec![("path", s("../../etc"))])).is_err());
}

#[test]
fn listing_is_sorted_and_marks_directories() {
    let entries = vec![("b.txt".to_string(), false), ("sub".to_string(), true), ("a.txt".to_string(), false)];
    assert_eq!(format_listing(&entries), "  a.txt\n  b.txt\n  sub/ (directory)");
    assert_eq!(format_listing(&vec![]), "(empty directory)");
}

#[test]
fn subagent_tool_definition_is_correct() {
    let tool = RunSubagentsTool::new("deepseek-v4-flash".into(), 5, PathBuf::from("/tmp"));
    let def = tool.defination();

    assert_eq!(def.name, "run_subagents");
    assert_eq!(def.strict, Some(true));
    assert!(def.parameters.props.contains_key("system_prompt"));
    assert!(def.parameters.props.contains_key("model"));
    assert!(def.parameters.props.contains_key("tasks"));
    assert_eq!(def.parameters.required, Some(vec!["system_prompt".to_string(), "tasks".to_string()]));
}

fn task(id: &str, prompt: &str) -> JsonValue {
    JsonValue::Object(vec![("id".to_string(), s(id)), ("prompt".to_string(), s(prompt))])
}

#[test]
fn subagent_args_are_checked() {
    let tool = RunSubagentsTool::new("deepseek-v4-flash".into(), 3, PathBuf::from("/tmp"));
    let missing = tool.parse_args(&obj(vec![("system_prompt", s("test"))]));
    assert!(message(missing.unwrap_err()).contains("tasks"));

    let empty = tool.parse_args(&obj(vec![("system_prompt", s("test")), ("tasks", JsonValue::Array(vec![]))]));
    assert_eq!(message(empty.unwrap_err()), "'tasks' array must not be empty");

    let many = tool.parse_args(&obj(vec![
        ("system_prompt", s("x")),
        ("tasks", JsonValue::Array(vec![task("a", "1"), task("b", "2"), task("c", "3"), task("d", "4")])),
    ]));
    assert_eq!(message(many.unwrap_err()), "Too many tasks: 4 (max 3)");

    let no_id = tool.parse_args(&obj(vec![
        ("system_prompt", s("x")),
        ("tasks", JsonValue::Array(vec![JsonValue::Object(vec![("prompt".to_string(), s("hello"))])])),
    ]));
    assert_eq!(message(no_id.unwrap_err()), "Task 0: missing or empty 'id' field");

    let no_prompt = tool.parse_args(&obj(vec![
        ("system_prompt", s("x")),
        ("tasks", JsonValue::Array(vec![task("a", "1"), JsonValue::Object(vec![("id".to_string(), s("b"))])])),
    ]));
    assert_eq!(message(no_prompt.unwrap_err()), "Task 'b': missing or empty 'prompt' field");

    let ok = tool
        .parse_args(&obj(vec![("system_prompt", s("sys")), ("tasks", JsonValue::Array(vec![task("a", "p")]))]))
        .unwrap();
    assert_eq!(ok.0, "deepseek-v4-flash");
    assert_eq!(ok.1, "sys");
    assert_eq!(ok.2.len(), 1);
    assert_eq!(ok.2[0].id, "a");
    assert_eq!(ok.2[0].prompt, "p");

    let named = tool
        .parse_args(&obj(vec![
            ("system_prompt", s("sys")),
            ("model", s("other")),
            ("tasks", JsonValue::Array(vec![task("a", "p")])),
        ]))
        .unwrap();
    assert_eq!(named.0, "other");
    assert!(!is_supported_model("other"));
    assert!(is_supported_model("deepseek-v4-flash"));
}

#[test]
fn subagent_report_lists_each_task() {
    let ids = vec!["alpha".to_string(), "beta".to_string(), "gamma".to_string(), "alpha".to_string()];
    let results = vec![("alpha".to_string(), Some("beta is next".to_string())), ("beta".to_string(), None)];
    assert_eq!(
        format_results(&ids, &results),
        "## Sub-agent Results\n\n### alpha\n\nbeta is next\n\n### beta\n\nFAILED: resolver error\n\n### gamma\n\nFAILED: task not found\n\n### alpha\n\nFAILED: task not found\n"
    );
}

#[test]
fn web_fetch_tool_definition_is_correct() {
    let tool = WebFetchTool::new();
    let def = tool.defination();

    assert_eq!(def.name, "web_fetch");
    assert_eq!(def.strict, Some(true));
    assert!(def.parameters.props.contains_key("url"));
    assert!(def.parameters.props.contains_key("max_bytes"));
    assert_eq!(def.parameters.required, Some(vec!["url".to_string()]));
}

#[test]
fn web_search_tool_definition_is_correct() {
    let tool = WebSearchTool::new("test-key".into());
    let def = tool.defination();

    assert_eq!(def.name, "web_search");
    assert_eq!(def.strict, Some(true));
    assert!(def.parameters.props.contains_key("query"));
    assert!(def.parameters.props.contains_key("max_results"));
    assert_eq!(def.parameters.required, Some(vec!["query".to_string()]));
}

#[test]
fn web_tool_definition_is_correct() {
    let tool = LocalWebSearchTool::new("test-key".into());
    let def = tool.defination();

    assert_eq!(def.name, "web_search");
    assert_eq!(def.strict, Some(true));
    assert!(def.parameters.props.contains_key("query"));
    assert!(def.parameters.props.contains_key("max_results"));
    assert_eq!(def.parameters.required, Some(vec!["query".to_string()]));
}

#[test]
fn web_fetch_args_are_checked() {
    assert!(WebFetchTool::parse_args(&obj(vec![])).is_err());
    assert!(WebFetchTool::parse_args(&obj(vec![("url", s(""))])).is_err());
    assert_eq!(
        message(WebFetchTool::parse_args(&obj(vec![("url", s("not-a-valid-url"))])).unwrap_err()),
        "Invalid URL format: not-a-valid-url"
    );
    let (_url, max_bytes) =
        WebFetchTool::parse_args(&obj(vec![("url", s("https://example.com")), ("max_bytes", n(50))])).unwrap();
    assert_eq!(max_bytes, 1_000);
    let (_url, max_bytes) = WebFetchTool::parse_args(&obj(vec![("url", s("https://example.com"))])).unwrap();
    assert_eq!(max_bytes, 65536);
    let (url, max_bytes) =
        WebFetchTool::parse_args(&obj(vec![("url", s("https://example.com/x")), ("max_bytes", n(5000))])).unwrap();
    assert_eq!(url, "https://example.com/x");
    assert_eq!(max_bytes, 5000);
}

#[test]
fn web_search_args_are_checked() {
    assert!(WebSearchTool::parse_args(&obj(vec![])).is_err());
    assert!(WebSearchTool::parse_args(&obj(vec![("query", s(""))])).is_err());
    assert_eq!(WebSearchTool::parse_args(&obj(vec![("query", s("rust"))])).unwrap(), ("rust".to_string(), 5));
    assert_eq!(
        WebSearchTool::parse_args(&obj(vec![("query", s("rust")), ("max_results", n(50))])).unwrap(),
        ("rust".to_string(), 10)
    );
    assert_eq!(
        WebSearchTool::parse_args(&obj(vec![("query", s("rust")), ("max_results", n(0))])).unwrap(),
        ("rust".to_string(), 1)
    );
}

#[test]
fn search_results_are_numbered_and_snipped() {
    let long = "x".repeat(301);
    let results = vec![
        TavilyResult { title: "A".into(), url: "https://a".into(), content: "short".into() },
        TavilyResult { title: "B".into(), url: "https://b".into(), content: long },
    ];
    let text = format_search_results(&results);
    let expected = format!(
        "1. **A**\n   URL: https://a\n   short\n\n2. **B**\n   URL: https://b\n   {}…\n",
        "x".repeat(300)
    );
    assert_eq!(text, expected);
    assert_eq!(format_search_results(&vec![]), "No search results found.");
    assert_eq!(truncate_content("abc"), "abc");
    assert_eq!(truncate_content(&"y".repeat(300)), "y".repeat(300));
}

#[test]
fn fetched_body_is_cut_with_a_note() {
    let body = "z".repeat(1500);
    assert_eq!(
        fetch_report(&body, 1000),
        format!("{}\n\n[Response truncated to 1000 bytes; total was 1500 bytes]", "z".repeat(1000))
    );
    assert_eq!(fetch_report("<html></html>", 1000), "<html></html>");
}

#[test]
fn fetched_body_is_cut_by_bytes_on_a_character_boundary() {
    // 500 three-byte characters: 333 of them fit in 1000 bytes.
    let body = "中".repeat(500);
    assert_eq!(
        fetch_report(&body, 1000),
        format!("{}\n\n[Response truncated to 1000 bytes; total was 1500 bytes]", "中".repeat(333))
    );
    let mixed = format!("{}é{}", "a".repeat(999), "b".repeat(10));
    assert_eq!(
        fetch_report(&mixed, 1000),
        format!("{}\n\n[Response truncated to 1000 bytes; total was 1011 bytes]", "a".repeat(999))
    );
}

#[test]
fn absolute_paths_are_refused_before_any_join() {
    let absolute = "Absolute path not allowed: path must be relative to the base directory";
    let create = EmbeddedCreateFileTool::new(PathBuf::from("/tmp/base"));
    let r = create.check_args(&obj(vec![("path", s("/tmp/outside.txt")), ("content", s("x"))]));
    assert_eq!(message(r.unwrap_err()), absolute);
    let read = EmbeddedReadFileTool::new(PathBuf::from("/tmp/base"));
    assert_eq!(message(read.check_args(&obj(vec![("path", s("/etc/passwd"))])).unwrap_err()), absolute);
    let list = ListFilesTool::new(PathBuf::from("/tmp/base"));
    assert_eq!(message(list.check_args(&obj(vec![("path", s("/"))])).unwrap_err()), absolute);
    let local = CreateFileTool::new(PathBuf::from("/tmp/base"));
    let r = local.check_args(&obj(vec![("path", s("/abs/../x")), ("content", s("x"))]));
    assert_eq!(message(r.unwrap_err()), absolute);
    assert!(create.check_args(&obj(vec![("path", s("inside/file.txt")), ("content", s("x"))])).is_ok());
}

#[test]
fn urls_are_recognised_by_the_url_parser() {
    assert!(is_url("https://example.com/tools/call"));
    assert!(is_url("http://localhost:8080"));
    assert!(!is_url("not a url"));
    assert!(!is_url("/relative/path"));
    assert!(!is_url(""));
}

#[test]
fn file_tools_target_the_base_directory_joined_with_the_path() {
    let create = EmbeddedCreateFileTool::new(PathBuf::from("/tmp/base"));
    let (file, path, content) =
        create.target(&obj(vec![("path", s("sub/hello.txt")), ("content", s("hi"))])).unwrap();
    assert_eq!(file, PathBuf::from("/tmp/base/sub/hello.txt"));
    assert_eq!(path, "sub/hello.txt");
    assert_eq!(content, "hi");
    assert!(create.target(&obj(vec![("path", s("/etc/passwd")), ("content", s("x"))])).is_err());

    let read = EmbeddedReadFileTool::new(PathBuf::from("/tmp/base"));
    assert_eq!(read.target(&obj(vec![("path", s("notes.md"))])).unwrap(), PathBuf::from("/tmp/base/notes.md"));
    let list = ListFilesTool::new(PathBuf::from("/tmp/base"));
    assert_eq!(list.target(&obj(vec![])).unwrap(), (PathBuf::from("/tmp/base/."), ".".to_string()));

    let first = CreateFileTool::new(PathBuf::from("/srv"));
    let (file, _, _) = first.target(&obj(vec![("path", s("a.txt")), ("content", s(""))])).unwrap();
    assert_eq!(file, PathBuf::from("/srv/a.txt"));
    let first_read = ReadFileTool::new(PathBuf::from("/srv"));
    assert!(first_read.target(&obj(vec![("path", s("../x"))])).is_err());
}

#[test]
fn sub_agents_get_read_and_list_rooted_at_the_base() {
    let tool = RunSubagentsTool::new("deepseek-v4-flash".into(), 3, PathBuf::from("/work"));
    let (read, list) = tool.subagent_tools();
    assert_eq!(read.base_dir_path(), &PathBuf::from("/work"));
    assert_eq!(list.base_dir_path(), &PathBuf::from("/work"));
    assert_eq!(read.defination().name, "read_file");
    assert_eq!(list.defination().name, "list_files");
}
