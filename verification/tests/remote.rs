use poprako::agent::tool::remote::{
    finish_call, RegisterOutcome, RemoteError, RemoteProxy, RemoteReply, RemoteServerConfig,
    RemoteTool, RemoteToolConfig,
};
use poprako::agent::tool::result::ExecutionError;
use poprako::resolver::tool::{ParamDef, ToolDefination};
use poprako::resolver_impl::deepseek::data_object::{DeepSeekToolCall, ToolCallFunction};

fn tool(name: &str, description: &str, url: &str) -> RemoteTool {
    RemoteTool {
        defination: ToolDefination::new(name, description, ParamDef::default()).with_strict(true),
        call_url: url.to_string(),
    }
}

fn call(id: &str, name: &str, args: &str) -> DeepSeekToolCall {
    DeepSeekToolCall {
        id: id.to_string(),
        type_: "function".to_string(),
        function: ToolCallFunction { name: name.to_string(), arguments: args.to_string() },
    }
}

#[test]
fn registers_remote_tools_and_lists_them_by_name() {
    let mut proxy = RemoteProxy::new();
    assert_eq!(proxy.ensure_loaded(), Err(RemoteError::NoToolsLoaded));
    proxy.register_response(vec![
        tool("remote_echo", "Echo remote input.", "http://127.0.0.1:1/call"),
        tool("", "no name", "http://127.0.0.1:1/none"),
        tool("alpha", "First.", "http://127.0.0.1:1/alpha"),
    ]);
    assert_eq!(proxy.register(tool("remote_echo", "Second echo.", "http://other/call")), RegisterOutcome::Duplicate);
    assert_eq!(proxy.register(tool("", "x", "y")), RegisterOutcome::EmptyName);
    assert_eq!(proxy.register(tool("zeta", "Last.", "http://z")), RegisterOutcome::Registered);
    assert_eq!(proxy.ensure_loaded(), Ok(()));

    let defs = proxy.tool_definations();
    let names: Vec<&str> = defs.iter().map(|d| d.name.as_str()).collect();
    assert_eq!(names, vec!["alpha", "remote_echo", "zeta"]);
    assert_eq!(defs[1].description, "Echo remote input.");
    assert_eq!(defs[1].strict, Some(true));
    assert!(proxy.has_tool("remote_echo"));
    assert!(!proxy.has_tool(""));
    assert!(!proxy.has_tool("missing"));
}

#[test]
fn forwards_a_call_to_the_address_of_its_tool() {
    let mut proxy = RemoteProxy::new();
    proxy.register_response(vec![tool("remote_echo", "Echo.", "http://127.0.0.1:9/call")]);
    let c = call("call-1", "remote_echo", r#"{"text":"hello"}"#);
    assert_eq!(proxy.call_url(&c).unwrap(), "http://127.0.0.1:9/call");

    let out = finish_call(&c, RemoteReply::Success { output: r#"remote ok: {"text":"hello"}"#.to_string() }).unwrap();
    assert_eq!(out.call_id, "call-1");
    assert_eq!(out.content, r#"remote ok: {"text":"hello"}"#);
}

#[test]
fn unknown_remote_tool_is_an_execution_failure() {
    let proxy = RemoteProxy::new();
    let c = call("call-2", "nope", "{}");
    match proxy.call_url(&c) {
        Err(ExecutionError::ExecFail { message }) => assert_eq!(message, "tool not found: nope"),
        _ => panic!("expected a failure"),
    }
}

#[test]
fn remote_errors_and_failed_requests_become_execution_failures() {
    let c = call("call-3", "remote_echo", "{}");
    match finish_call(&c, RemoteReply::Error { message: "bad input".to_string() }) {
        Err(ExecutionError::ExecFail { message }) => assert_eq!(message, "bad input"),
        _ => panic!("expected a failure"),
    }
    match finish_call(&c, RemoteReply::RequestFailed { detail: "timeout".to_string() }) {
        Err(ExecutionError::ExecFail { message }) => {
            assert_eq!(message, "remote tool request failed: timeout")
        }
        _ => panic!("expected a failure"),
    }
}

#[test]
fn remote_config_needs_a_server() {
    let empty = RemoteToolConfig { servers: vec![] };
    assert_eq!(empty.check(), Err(RemoteError::NoServers));
    assert_eq!(RemoteError::NoServers.message(), "remote tool config has no servers");
    assert_eq!(RemoteError::NoToolsLoaded.message(), "no remote tools successfully loaded");
    let one = RemoteToolConfig {
        servers: vec![RemoteServerConfig {
            name: "test".to_string(),
            register_url: "http://127.0.0.1:1/register".to_string(),
        }],
    };
    assert_eq!(one.check(), Ok(()));
}
