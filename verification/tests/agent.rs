use poprako::agent::evaluate::{evaluate_step, EvaluateEvent, EvaluateStage, EvaluateState};
use poprako::agent::evaluate::{
    after_turn, before_tool_call, final_output, finish_content, interceptor_flow, merge_tool_defs, tool_reply,
    EvaluateFlow, ToolStep,
};
use poprako::agent::interceptor::{InterceptorFlow, ToolInterceptorFlow};
use poprako::agent::plugin::embedded_local::memory_shard::{
    inject_directory, injection_message_text, last_user_text, shard_directory_text,
};
use poprako::agent::tool::embedded_local::memory::ShardMeta;
use poprako::agent::tool::result::{CallOutput, CallResult, ExecutionError};
use poprako::lines::{decimal_string, join_strings, sort_strings, split_once, split_str, str_le};
use poprako::resolver::action::{Action, Reason};
use poprako::resolver::context::ContextBuilder;
use poprako::resolver::message::{IMessage, MessageRef};
use poprako::resolver::openai::message::{ChatMessage, ChatUserContent};
use poprako::resolver::openai::tool::{ChatFunctionCall, ChatToolCall};
use poprako::resolver::tool::{ParamDef, ToolDefination};

fn user(text: &str) -> ChatMessage {
    ChatMessage::User { content: ChatUserContent::Text(text.to_string()), name: None }
}

fn content_of(m: &ChatMessage) -> String {
    match m.message_ref() {
        MessageRef::User { content } | MessageRef::System { content } => content.to_string(),
        MessageRef::Assist { content, .. } => content.unwrap_or("").to_string(),
        MessageRef::Tool { content, .. } => content.to_string(),
    }
}

#[test]
fn injects_shard_list_before_user_message() {
    let mut cx = ContextBuilder::<ChatMessage, ()>::new("test-model")
        .messages(vec![user("[channel_id: 1, sender_nickname: 小明]\nhello")])
        .build();
    let metas = vec![ShardMeta { name: "dev".into(), description: "team".into(), tags: vec!["a".into()] }];
    let directory = shard_directory_text(&metas);
    assert_eq!(directory, "- 名称：dev\n  描述：team\n  标签：a");

    let flow = inject_directory(&mut cx, &directory);
    assert_eq!(flow, InterceptorFlow::Continue);
    assert_eq!(cx.message_count(), 2);
    let injected = content_of(&cx.annotated_messages()[0].message);
    assert!(injected.starts_with("[注入上下文：记忆分片目录]"));
    assert!(injected.ends_with("- 名称：dev\n  描述：team\n  标签：a\n[/注入上下文]"));
    assert!(content_of(&cx.annotated_messages()[1].message).contains("hello"));
}

#[test]
fn skips_when_no_user_message() {
    let mut cx = ContextBuilder::<ChatMessage, ()>::new("test-model").build();
    assert!(last_user_text(&cx).is_none());
    inject_directory(&mut cx, "- 名称：x");
    assert_eq!(cx.message_count(), 0);

    let mut cx = ContextBuilder::<ChatMessage, ()>::new("test-model").messages(vec![user("hi")]).build();
    inject_directory(&mut cx, "");
    assert_eq!(cx.message_count(), 1);
}

#[test]
fn injection_text_has_header_and_closing_tag() {
    let t = injection_message_text("D");
    assert_eq!(
        t,
        "[注入上下文：记忆分片目录]\n来源：系统\n用途：可用记忆分片目录\n说明：这不是真实用户发言。不要直接回应本消息。需要完整内容时，按名称调用 recall_memory_shard。\n\nD\n[/注入上下文]"
    );
}

fn call(id: &str) -> ChatToolCall {
    ChatToolCall {
        id: id.to_string(),
        type_: "function".to_string(),
        function: ChatFunctionCall { name: "t".to_string(), arguments: "{}".to_string() },
    }
}

#[test]
fn loop_decisions() {
    assert!(matches!(interceptor_flow(InterceptorFlow::Continue), EvaluateFlow::Continue(())));
    match interceptor_flow(InterceptorFlow::Stop { output: Some("stopped".into()) }) {
        EvaluateFlow::Finish(out) => assert_eq!(out.as_deref(), Some("stopped")),
        _ => panic!("expected finish"),
    }
    assert_eq!(final_output(InterceptorFlow::Continue, Some("a".into())), Some("a".to_string()));
    assert_eq!(final_output(InterceptorFlow::Stop { output: None }, Some("a".into())), None);

    let action: Action<ChatToolCall> = Action { reason: Reason::Finish, content: Some("done".into()), refusal: None, tool_calls: None };
    assert_eq!(finish_content(&Reason::Finish, &action), Some("done".to_string()));
    assert_eq!(finish_content(&Reason::Length, &action), None);
    assert!(matches!(after_turn(&Reason::ToolCall, None), EvaluateFlow::Continue(())));
    assert!(matches!(after_turn(&Reason::Finish, Some("x".into())), EvaluateFlow::Finish(Some(_))));
}

#[test]
fn tool_call_decisions() {
    let c = call("call_1");
    assert!(matches!(before_tool_call(ToolInterceptorFlow::Continue, &c), ToolStep::Run));
    match before_tool_call(ToolInterceptorFlow::Skip { content: "cached".into() }, &c) {
        ToolStep::Answer(Ok(out)) => {
            assert_eq!(out.call_id, "call_1");
            assert_eq!(out.content, "cached");
        }
        _ => panic!("expected answer"),
    }
    assert!(matches!(before_tool_call(ToolInterceptorFlow::Stop { output: None }, &c), ToolStep::Stop(None)));

    let ok: CallResult = Ok(CallOutput::new("call_1".into(), "result".into()));
    assert_eq!(tool_reply(&c, &ok, "unused"), ("call_1".to_string(), "result".to_string()));
    let err: CallResult = Err(ExecutionError::exec_fail("boom".into()));
    assert_eq!(tool_reply(&c, &err, "ExecFail"), ("call_1".to_string(), "ExecFail".to_string()));
}

fn def(name: &str, description: &str) -> ToolDefination {
    ToolDefination::new(name, description, ParamDef::new("object"))
}

#[test]
fn remote_tools_never_shadow_local_ones() {
    let merged = merge_tool_defs(
        vec![def("a", "local a"), def("b", "local b")],
        vec![def("b", "remote b"), def("c", "remote c")],
    );
    let names: Vec<(String, String)> = merged.into_iter().map(|d| (d.name, d.description)).collect();
    assert_eq!(
        names,
        vec![
            ("a".to_string(), "local a".to_string()),
            ("b".to_string(), "local b".to_string()),
            ("c".to_string(), "remote c".to_string()),
        ]
    );
}

#[test]
fn split_and_join_are_inverse() {
    let parts = split_str("a,,b,", ",");
    assert_eq!(parts, vec!["a", "", "b", ""]);
    assert_eq!(join_strings(&parts, ","), "a,,b,");
    assert_eq!(split_str("", "---"), vec![""]);
    assert_eq!(split_str("x\\ny", "\\n"), vec!["x", "y"]);
    assert_eq!(split_once("k=v=w", "="), Some(("k".to_string(), "v=w".to_string())));
    assert_eq!(split_once("kv", "="), None);
}

#[test]
fn text_order_and_numerals() {
    assert!(str_le("ab", "abc"));
    assert!(!str_le("b", "abc"));
    assert!(str_le("", ""));
    assert_eq!(sort_strings(vec!["b".into(), "a".into(), "ab".into(), "a".into()]), vec!["a", "a", "ab", "b"]);
    assert_eq!(decimal_string(0), "0");
    assert_eq!(decimal_string(1024), "1024");
    assert_eq!(decimal_string(u64::MAX), "18446744073709551615");
}

fn stage_of(flow: &EvaluateFlow<EvaluateState>) -> String {
    match flow {
        EvaluateFlow::Continue(s) => format!("{:?}@{}", s.stage, s.loop_index),
        EvaluateFlow::Finish(o) => format!("finish {:?}", o),
    }
}

#[test]
fn an_evaluation_steps_through_each_turn_in_order() {
    let go = || EvaluateEvent::Answered(InterceptorFlow::Continue);
    let mut state = EvaluateState::start();
    let mut seen = Vec::new();
    let events = vec![
        go(),
        go(),
        go(),
        EvaluateEvent::Resolved(true),
        go(),
        EvaluateEvent::ToolsRun(EvaluateFlow::Continue(())),
        go(),
        EvaluateEvent::Committed { reason: Reason::ToolCall, finish: None },
        go(),
    ];
    for event in events {
        let next = evaluate_step(state, event);
        seen.push(stage_of(&next));
        match next {
            EvaluateFlow::Continue(s) => state = s,
            EvaluateFlow::Finish(_) => panic!("finished early"),
        }
    }
    assert_eq!(
        seen,
        vec![
            "BeforeLoop@0",
            "BeforeResolve@0",
            "Resolve@0",
            "AfterResolve@0",
            "RunTools@0",
            "BeforeCommit@0",
            "Commit@0",
            "AfterLoop@0",
            "BeforeLoop@1",
        ]
    );
    let s = evaluate_step(state, go());
    let s = match s {
        EvaluateFlow::Continue(s) => s,
        _ => panic!(),
    };
    let s = match evaluate_step(s, go()) {
        EvaluateFlow::Continue(s) => s,
        _ => panic!(),
    };
    let s = match evaluate_step(s, EvaluateEvent::Resolved(true)) {
        EvaluateFlow::Continue(s) => s,
        _ => panic!(),
    };
    let s = match evaluate_step(s, go()) {
        EvaluateFlow::Continue(s) => s,
        _ => panic!(),
    };
    let s = match evaluate_step(s, EvaluateEvent::ToolsRun(EvaluateFlow::Continue(()))) {
        EvaluateFlow::Continue(s) => s,
        _ => panic!(),
    };
    let s = match evaluate_step(s, go()) {
        EvaluateFlow::Continue(s) => s,
        _ => panic!(),
    };
    let s = match evaluate_step(s, EvaluateEvent::Committed { reason: Reason::Finish, finish: Some("done".into()) }) {
        EvaluateFlow::Continue(s) => s,
        _ => panic!(),
    };
    assert_eq!(stage_of(&evaluate_step(s, go())), "finish Some(\"done\")");
}

#[test]
fn stops_and_failures_end_an_evaluation() {
    let stop = EvaluateEvent::Answered(InterceptorFlow::Stop { output: Some("halt".into()) });
    assert_eq!(stage_of(&evaluate_step(EvaluateState::start(), stop)), "finish Some(\"halt\")");
    let resolving = EvaluateState { stage: EvaluateStage::Resolve, loop_index: 3, finishing: None };
    assert_eq!(stage_of(&evaluate_step(resolving, EvaluateEvent::Resolved(false))), "finish None");
    let tools = EvaluateState { stage: EvaluateStage::RunTools, loop_index: 0, finishing: None };
    assert_eq!(
        stage_of(&evaluate_step(tools, EvaluateEvent::ToolsRun(EvaluateFlow::Finish(Some("x".into()))))),
        "finish Some(\"x\")"
    );
}
