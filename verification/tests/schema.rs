use poprako::agent::compact::sliding_window_compact;
use poprako::json::{JsonNumber, JsonValue};
use poprako::resolver::context::ContextBuilder;
use poprako::resolver::result::ResolveError;
use poprako::resolver::schema::{prop_def_from_schema, tool_json, SchemaError};
use poprako::resolver::tool::{number_prop, string_prop, ParamDef, PropDef, ToolDefination};
use poprako::resolver_impl::deepseek::data_object::DeepSeekMessage;
use poprako::resolver_impl::deepseek::request::{
    first_choice, read_choice, request_body, with_empty_reasoning,
};
use poprako::session::persist::codec::OpenAiCodec;
use poprako::session::SessionManager;

/// Compact JSON text of a value, members in their order.
fn render(v: &JsonValue) -> String {
    match v {
        JsonValue::Null => "null".to_string(),
        JsonValue::Bool(b) => b.to_string(),
        JsonValue::Number(n) => n.text.clone(),
        JsonValue::String(s) => format!("{:?}", s),
        JsonValue::Array(items) => {
            format!("[{}]", items.iter().map(render).collect::<Vec<_>>().join(","))
        }
        JsonValue::Object(members) => format!(
            "{{{}}}",
            members
                .iter()
                .map(|(k, v)| format!("{:?}:{}", k, render(v)))
                .collect::<Vec<_>>()
                .join(",")
        ),
    }
}

fn s(x: &str) -> JsonValue {
    JsonValue::String(x.to_string())
}

fn obj(members: Vec<(&str, JsonValue)>) -> JsonValue {
    JsonValue::Object(members.into_iter().map(|(k, v)| (k.to_string(), v)).collect())
}

fn sample_tool() -> ToolDefination {
    let params = ParamDef::new("object")
        .with_properties(vec![
            ("query", string_prop("What to look for.")),
            ("limit", number_prop("How many.")),
        ])
        .with_required(vec!["query".to_string()]);
    ToolDefination::new("search", "Search things.", params).with_strict(true)
}

#[test]
fn parameters_render_as_json_schema() {
    let mut params = ParamDef::new("object").with_properties(vec![(
        "mode",
        PropDef::String {
            desc: "Mode.".to_string(),
            enum_: Some(vec!["a".to_string(), "b".to_string()]),
        },
    )]);
    params.additional_props = Some(false);
    assert_eq!(
        render(&params.to_value()),
        r#"{"type":"object","properties":{"mode":{"description":"Mode.","type":"string","enum":["a","b"]}},"additionalProperties":false}"#
    );
}

#[test]
fn tool_json_wraps_the_function() {
    assert_eq!(
        render(&tool_json(&sample_tool())),
        r#"{"type":"function","function":{"name":"search","description":"Search things.","parameters":{"type":"object","properties":{"query":{"description":"What to look for.","type":"string"},"limit":{"description":"How many.","type":"number"}},"required":["query"]}}}"#
    );
}

#[test]
fn property_schemas_are_read_by_type() {
    let p = prop_def_from_schema("string", "d".to_string(), Some(vec![s("x"), s("y")])).unwrap();
    match p {
        PropDef::String { desc, enum_ } => {
            assert_eq!(desc, "d");
            assert_eq!(enum_, Some(vec!["x".to_string(), "y".to_string()]));
        }
        _ => panic!("expected a string property"),
    }
    let n = prop_def_from_schema("number", "n".to_string(), Some(vec![JsonValue::Number(JsonNumber::from_u64(3))])).unwrap();
    match n {
        PropDef::Number { enum_: Some(values), .. } => assert_eq!(values[0].text, "3"),
        _ => panic!("expected a number property with values"),
    }
    assert!(matches!(
        prop_def_from_schema("boolean", "b".to_string(), None),
        Ok(PropDef::Boolean { .. })
    ));
    assert!(matches!(
        prop_def_from_schema("string", "d".to_string(), Some(vec![JsonValue::Null])),
        Err(SchemaError::StringEnumNotStrings)
    ));
    assert!(matches!(
        prop_def_from_schema("number", "d".to_string(), Some(vec![s("1")])),
        Err(SchemaError::NumberEnumNotNumbers)
    ));
    let e = prop_def_from_schema("integer", "d".to_string(), None).unwrap_err();
    assert_eq!(e.message(), "unsupported property type: integer");
    assert_eq!(SchemaError::StringEnumNotStrings.message(), "string enum must contain strings");
    assert_eq!(SchemaError::NumberEnumNotNumbers.message(), "number enum must contain numbers");
}

#[test]
fn request_body_names_tools_only_when_there_are_some() {
    let plain = request_body("deepseek-v4-flash", JsonValue::Array(vec![]), &[]);
    assert_eq!(render(&plain), r#"{"model":"deepseek-v4-flash","messages":[]}"#);
    let with_tools = request_body("m", JsonValue::Array(vec![]), &[sample_tool()]);
    let text = render(&with_tools);
    assert!(text.starts_with(r#"{"model":"m","messages":[],"tools":[{"type":"function","function":{"name":"search""#));
    assert!(text.ends_with(r#""tool_choice":"auto"}"#));
}

#[test]
fn the_first_choice_is_read_and_a_missing_one_is_an_error() {
    let response = obj(vec![(
        "choices",
        JsonValue::Array(vec![obj(vec![
            ("finish_reason", s("tool_calls")),
            (
                "message",
                obj(vec![
                    ("content", JsonValue::Null),
                    (
                        "tool_calls",
                        JsonValue::Array(vec![obj(vec![
                            ("id", s("call_1")),
                            ("function", obj(vec![("name", s("search")), ("arguments", s("{}"))])),
                        ])]),
                    ),
                ]),
            ),
        ])]),
    )]);
    let choice = read_choice(first_choice(&response).unwrap());
    assert_eq!(choice.finish_reason.as_deref(), Some("tool_calls"));
    assert_eq!(choice.content, None);
    let calls = choice.tool_calls.unwrap();
    assert_eq!(calls.len(), 1);
    assert_eq!(calls[0].id.as_deref(), Some("call_1"));
    assert_eq!(calls[0].name.as_deref(), Some("search"));
    assert_eq!(calls[0].arguments.as_deref(), Some("{}"));

    let empty = obj(vec![("choices", JsonValue::Array(vec![]))]);
    assert!(matches!(first_choice(&empty), Err(ResolveError::NoChoice { .. })));
    assert!(matches!(first_choice(&JsonValue::Null), Err(ResolveError::NoChoice { .. })));
}

fn user(text: &str) -> DeepSeekMessage {
    DeepSeekMessage::User { content: text.to_string() }
}

fn assistant(text: &str) -> DeepSeekMessage {
    DeepSeekMessage::Assistant {
        content: Some(text.to_string()),
        reasoning_content: None,
        tool_calls: None,
        refusal: None,
    }
}

#[test]
fn compaction_keeps_the_first_message_and_a_window_from_a_user_message() {
    let mut messages = vec![DeepSeekMessage::System { content: "system".to_string() }];
    for i in 0..45 {
        messages.push(user(&format!("u{}", i)));
        messages.push(assistant(&format!("a{}", i)));
    }
    messages.push(user("last"));
    assert_eq!(messages.len(), 92);
    let mut cx = ContextBuilder::<DeepSeekMessage, ()>::new("m").messages(messages).build();
    let mut state = ();
    sliding_window_compact(&mut state, &mut cx);
    let kept = cx.messages();
    // The last 50 start at an assistant message (index 42 of 92), which is
    // dropped so that the window starts at a user message.
    assert_eq!(kept.len(), 50);
    assert_eq!(*kept[0], DeepSeekMessage::System { content: "system".to_string() });
    assert_eq!(*kept[1], user("u21"));
    assert_eq!(*kept[48], assistant("a44"));
    assert_eq!(*kept[49], user("last"));
    assert_eq!(cx.model(), "m");
}

#[test]
fn short_contexts_are_not_compacted() {
    let mut cx = ContextBuilder::<DeepSeekMessage, ()>::new("m")
        .messages(vec![user("a"), assistant("b")])
        .build();
    sliding_window_compact(&mut (), &mut cx);
    assert_eq!(cx.message_count(), 2);
}

#[test]
fn session_manager_keeps_its_store() {
    let manager = SessionManager::new_openai(7u32);
    assert_eq!(*manager.store(), 7);
    let other = SessionManager::<&str, DeepSeekMessage, OpenAiCodec>::new("store", OpenAiCodec);
    assert_eq!(*other.store(), "store");
}

#[test]
fn assistant_messages_get_empty_reasoning_text() {
    let messages = JsonValue::Array(vec![
        obj(vec![("role", s("user")), ("content", s("hi"))]),
        obj(vec![("role", s("assistant")), ("content", s("hello"))]),
        obj(vec![("role", s("assistant")), ("reasoning_content", s("kept"))]),
    ]);
    assert_eq!(
        render(&with_empty_reasoning(messages)),
        r#"[{"role":"user","content":"hi"},{"role":"assistant","content":"hello","reasoning_content":""},{"role":"assistant","reasoning_content":"kept"}]"#
    );
    assert_eq!(render(&with_empty_reasoning(s("x"))), r#""x""#);
}
