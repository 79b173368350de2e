use poprako::resolver::action::{Action, Reason};
use poprako::resolver::message::{IMessage, MessageOwned, MessageRef, MessageRole};
use poprako::resolver::result::ResolveError;
use poprako::resolver::tool::IToolCall;
use poprako::resolver_impl::deepseek::choice::{Choice, RawToolCall, build_action};
use poprako::resolver_impl::deepseek::data_object::{
    DeepSeekMessage, DeepSeekToolCall, ReasoningEffort, Thinking, ToolCallFunction, with_reasoning_contents,
};
use poprako::json::JsonValue;
use poprako::resolver_impl::deepseek::http::{HttpError, map_err};

fn choice(finish: Option<&str>, content: Option<&str>) -> Choice {
    Choice {
        finish_reason: finish.map(|s| s.to_string()),
        content: content.map(|s| s.to_string()),
        refusal: None,
        tool_calls: None,
    }
}

fn raw_call(id: &str, name: &str, args: &str) -> RawToolCall {
    RawToolCall { id: Some(id.to_string()), name: Some(name.to_string()), arguments: Some(args.to_string()) }
}

#[test]
fn role_maps_correctly() {
    let system_msg = DeepSeekMessage::System { content: "s".into() };
    assert_eq!(system_msg.role(), MessageRole::System);

    let user_msg = DeepSeekMessage::User { content: "u".into() };
    assert_eq!(user_msg.role(), MessageRole::User);

    let assist_msg = DeepSeekMessage::Assistant {
        content: Some("a".into()),
        reasoning_content: None,
        tool_calls: None,
        refusal: None,
    };
    assert_eq!(assist_msg.role(), MessageRole::Assist);

    let tool_msg = DeepSeekMessage::Tool { tool_call_id: "id".into(), content: "t".into() };
    assert_eq!(tool_msg.role(), MessageRole::Tool);
}

#[test]
fn message_ref_extracts_content() {
    let msg = DeepSeekMessage::User { content: "hi".into() };
    let msg_ref = msg.message_ref();
    match msg_ref {
        MessageRef::User { content } => assert_eq!(content, "hi"),
        _ => panic!("expected User ref"),
    }
}

#[test]
fn message_ref_extracts_assist_fields() {
    let tc = DeepSeekToolCall {
        id: "call_1".into(),
        type_: "function".into(),
        function: ToolCallFunction { name: "my_tool".into(), arguments: "{}".into() },
    };

    let msg = DeepSeekMessage::Assistant {
        content: Some("hello".into()),
        reasoning_content: Some("thinking".into()),
        tool_calls: Some(vec![tc]),
        refusal: Some("refused".into()),
    };

    let msg_ref = msg.message_ref();
    match msg_ref {
        MessageRef::Assist { content, tool_calls, refusal } => {
            assert_eq!(content, Some("hello"));
            assert_eq!(refusal, Some("refused"));
            assert!(tool_calls.is_some());
            assert_eq!(tool_calls.unwrap()[0].name(), "my_tool");
        }
        _ => panic!("expected Assist ref"),
    }
}

#[test]
fn action_to_message_preserves_content_and_tool_calls() {
    let action = Action { reason: Reason::Finish, content: Some("done".into()), refusal: None, tool_calls: None };

    let msg: DeepSeekMessage = action.into();
    match msg {
        DeepSeekMessage::Assistant { content, reasoning_content, .. } => {
            assert_eq!(content.as_deref(), Some("done"));
            assert_eq!(reasoning_content, None);
        }
        _ => panic!("expected Assistant"),
    }
}

#[test]
fn message_ref_to_owned_round_trip() {
    let owned = DeepSeekMessage::System { content: "system prompt".into() };
    let msg_ref = owned.message_ref();
    let back: DeepSeekMessage = msg_ref.into();

    assert_eq!(back, owned);
}

#[test]
fn message_owned_to_deepseek_round_trip() {
    let m = MessageOwned::Tool { tool_call_id: "id".into(), content: "payload".into() };
    let ds: DeepSeekMessage = m.into();
    match ds {
        DeepSeekMessage::Tool { tool_call_id, content } => {
            assert_eq!(tool_call_id, "id");
            assert_eq!(content, "payload");
        }
        _ => panic!("expected Tool"),
    }
}

#[test]
fn tool_call_trait_returns_correct_fields() {
    let tc = DeepSeekToolCall {
        id: "call_1".into(),
        type_: "function".into(),
        function: ToolCallFunction { name: "my_tool".into(), arguments: "{\"key\": \"value\"}".into() },
    };

    assert_eq!(tc.id(), "call_1");
    assert_eq!(tc.name(), "my_tool");
    assert_eq!(tc.args(), "{\"key\": \"value\"}");
}

#[test]
fn build_action_stop_with_content() {
    let action = build_action(choice(Some("stop"), Some("hello world")));
    assert!(matches!(action.reason, Reason::Finish));
    assert_eq!(action.content.as_deref(), Some("hello world"));
    assert!(action.tool_calls.is_none());
}

#[test]
fn build_action_length() {
    let action = build_action(choice(Some("length"), Some("incomplete...")));
    assert!(matches!(action.reason, Reason::Length));
}

#[test]
fn build_action_tool_calls() {
    let mut c = choice(Some("tool_calls"), Some(""));
    c.tool_calls = Some(vec![raw_call("call_xyz", "web_search", "{\"query\":\"rust\"}")]);
    let action = build_action(c);
    assert!(matches!(action.reason, Reason::ToolCall));
    let calls = action.tool_calls.expect("should have tool calls");
    assert_eq!(calls.len(), 1);
    assert_eq!(calls[0].id, "call_xyz");
    assert_eq!(calls[0].function.name, "web_search");
    assert_eq!(calls[0].function.arguments, "{\"query\":\"rust\"}");
}

#[test]
fn build_action_function_call() {
    let action = build_action(choice(Some("function_call"), Some("")));
    assert!(matches!(action.reason, Reason::ToolCall));
}

#[test]
fn build_action_unknown_finish_reason() {
    let action = build_action(choice(Some("content_filter"), Some("blocked")));
    assert!(matches!(action.reason, Reason::Unknown(ref s) if s == "content_filter"));
}

#[test]
fn build_action_no_finish_reason() {
    let action = build_action(choice(None, Some("")));
    assert!(matches!(action.reason, Reason::Unknown(ref s) if s.is_empty()));
}

#[test]
fn build_action_with_refusal() {
    let mut c = choice(Some("stop"), None);
    c.refusal = Some("I cannot answer that".into());
    let action = build_action(c);
    assert_eq!(action.refusal.as_deref(), Some("I cannot answer that"));
    assert!(action.content.is_none());
}

#[test]
fn build_action_multiple_tool_calls() {
    let mut c = choice(Some("tool_calls"), Some(""));
    c.tool_calls = Some(vec![raw_call("call_1", "tool_a", "{}"), raw_call("call_2", "tool_b", "{\"x\":1}")]);
    let action = build_action(c);
    let calls = action.tool_calls.unwrap();
    assert_eq!(calls.len(), 2);
    assert_eq!(calls[0].function.name, "tool_a");
    assert_eq!(calls[1].function.name, "tool_b");
}

#[test]
fn build_action_fills_defaults_of_a_bare_call() {
    let mut c = choice(Some("tool_calls"), None);
    c.tool_calls = Some(vec![RawToolCall { id: None, name: None, arguments: None }]);
    let calls = build_action(c).tool_calls.unwrap();
    assert_eq!(calls[0].id, "");
    assert_eq!(calls[0].type_, "function");
    assert_eq!(calls[0].function.name, "");
    assert_eq!(calls[0].function.arguments, "{}");
}

#[test]
fn map_err_invalid_url() {
    let mapped = map_err(HttpError::InvalidUrl("bad url".into()));
    assert!(matches!(mapped, ResolveError::Unknown { .. }));
}

#[test]
fn map_err_timeout() {
    let mapped = map_err(HttpError::Timeout);
    assert!(matches!(mapped, ResolveError::Network { .. }));
}

#[test]
fn map_err_decode() {
    let mapped = map_err(HttpError::Decode("bad json".into()));
    assert!(matches!(mapped, ResolveError::JsonSerde { .. }));
}

#[test]
fn map_err_response_body_is_api_error_without_status() {
    match map_err(HttpError::ResponseBody("oops".into())) {
        ResolveError::Api { status, message } => {
            assert_eq!(status, 0);
            assert_eq!(message, "oops");
        }
        other => panic!("expected Api, got {:?}", other),
    }
}

#[test]
fn resolve_error_texts_are_exact() {
    assert_eq!(ResolveError::Api { status: 429, message: "slow".into() }.message_text(), "API 错误 (HTTP 429)：slow");
    assert_eq!(ResolveError::Network { message: "timeout".into() }.message_text(), "网络错误：timeout");
    assert_eq!(ResolveError::NoChoice { message: "x".into() }.message_text(), "API 未返回有效响应：x");
}

#[test]
fn ensure_reasoning_content_injects_empty_when_none() {
    let mut msg = DeepSeekMessage::Assistant {
        content: Some("hi".into()),
        reasoning_content: None,
        tool_calls: None,
        refusal: None,
    };
    msg.ensure_reasoning_content();

    match msg {
        DeepSeekMessage::Assistant { reasoning_content, .. } => assert_eq!(reasoning_content.as_deref(), Some("")),
        _ => panic!("expected Assistant"),
    }
}

#[test]
fn ensure_reasoning_content_skips_when_present() {
    let mut msg = DeepSeekMessage::Assistant {
        content: Some("hi".into()),
        reasoning_content: Some("real thinking".into()),
        tool_calls: None,
        refusal: None,
    };
    msg.ensure_reasoning_content();

    match msg {
        DeepSeekMessage::Assistant { reasoning_content, .. } => {
            assert_eq!(reasoning_content.as_deref(), Some("real thinking"))
        }
        _ => panic!("expected Assistant"),
    }
}

#[test]
fn reasoning_contents_only_touch_assistant_messages() {
    let out = with_reasoning_contents(vec![
        DeepSeekMessage::User { content: "u".into() },
        DeepSeekMessage::Assistant { content: None, reasoning_content: None, tool_calls: None, refusal: None },
    ]);
    assert_eq!(out[0], DeepSeekMessage::User { content: "u".into() });
    assert_eq!(
        out[1],
        DeepSeekMessage::Assistant { content: None, reasoning_content: Some(String::new()), tool_calls: None, refusal: None }
    );
}

fn thinking_type_of(v: &JsonValue) -> String {
    match v {
        JsonValue::Object(members) => {
            assert_eq!(members.len(), 1);
            assert_eq!(members[0].0, "type");
            match &members[0].1 {
                JsonValue::String(s) => s.clone(),
                other => panic!("not a string: {:?}", other),
            }
        }
        other => panic!("not an object: {:?}", other),
    }
}

#[test]
fn thinking_serializes_correctly() {
    let enabled = Thinking::enabled();
    assert_eq!(thinking_type_of(&enabled.to_json()), "enabled");
    let disabled = Thinking::disabled();
    assert_eq!(thinking_type_of(&disabled.to_json()), "disabled");
}

#[test]
fn reasoning_effort_serializes() {
    for (effort, name) in [(ReasoningEffort::High, "high"), (ReasoningEffort::Max, "max")] {
        match effort.to_json() {
            JsonValue::String(s) => assert_eq!(s, name),
            other => panic!("not a string: {:?}", other),
        }
    }
}
