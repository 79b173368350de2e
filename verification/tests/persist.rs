use poprako::agent::persist::data_object as first;
use poprako::session::persist::checkpoint::checkpoint_base;
use poprako::agent::persist::codec::{MessageSnapshotCodec, OpenAiCodec};
use poprako::agent::persist::entity::{CheckpointKind, SessionStatus as FirstSessionStatus};
use poprako::resolver::context::ContextBuilder;
use poprako::resolver::openai::message::{ChatMessage, ChatUserContent};
use poprako::resolver::openai::tool::{ChatFunctionCall, ChatToolCall};
use poprako::session::persist::checkpoint::{assemble_messages, plan_checkpoint, prefix_match, ref_positions, sort_level};
use poprako::session::persist::codec::{decode_chat_message, encode_chat_message, encode_context};
use poprako::session::persist::data_object::{
    hash_message, message_equals, message_id_bytes, upsert_row, Message, ToolCall,
};
use poprako::session::persist::entity::{CheckpointKindValue, SessionStatus};

#[test]
fn entity_session_status_maps_database_values() {
    assert_eq!(SessionStatus::Active.db_value(), "active");
    assert_eq!(SessionStatus::Archived.db_value(), "archived");
    assert!(matches!(SessionStatus::from_db("active").unwrap(), SessionStatus::Active));
    assert!(matches!(SessionStatus::from_db("archived").unwrap(), SessionStatus::Archived));
    assert!(SessionStatus::from_db("deleted").is_err());

    assert_eq!(FirstSessionStatus::Active.db_value(), "active");
    assert_eq!(FirstSessionStatus::Archived.db_value(), "archived");
    assert!(matches!(FirstSessionStatus::from_db("active").unwrap(), FirstSessionStatus::Active));
    assert!(matches!(FirstSessionStatus::from_db("archived").unwrap(), FirstSessionStatus::Archived));
    assert!(FirstSessionStatus::from_db("deleted").is_err());
}

#[test]
fn entity_checkpoint_kind_maps_database_values() {
    assert_eq!(CheckpointKindValue::BeforeSolution.db_value(), "before_solution");
    assert_eq!(CheckpointKindValue::AfterSolution.db_value(), "after_solution");
    assert_eq!(CheckpointKindValue::Fork.db_value(), "fork");
    assert!(matches!(CheckpointKindValue::from_db("before_solution").unwrap(), CheckpointKindValue::BeforeSolution));
    assert!(matches!(CheckpointKindValue::from_db("after_solution").unwrap(), CheckpointKindValue::AfterSolution));
    assert!(matches!(CheckpointKindValue::from_db("fork").unwrap(), CheckpointKindValue::Fork));
    assert!(CheckpointKindValue::from_db("snapshot").is_err());

    assert_eq!(CheckpointKind::BeforeRun.db_value(), "before_run");
    assert_eq!(CheckpointKind::AfterRun.db_value(), "after_run");
    assert_eq!(CheckpointKind::Fork.db_value(), "fork");
    assert!(matches!(CheckpointKind::from_db("before_run").unwrap(), CheckpointKind::BeforeRun));
    assert!(matches!(CheckpointKind::from_db("after_run").unwrap(), CheckpointKind::AfterRun));
    assert!(matches!(CheckpointKind::from_db("fork").unwrap(), CheckpointKind::Fork));
    assert!(CheckpointKind::from_db("snapshot").is_err());
}

#[test]
fn unknown_database_values_are_named_in_the_error() {
    assert_eq!(SessionStatus::from_db("deleted").unwrap_err().message, "unknown session status: deleted");
    assert_eq!(CheckpointKindValue::from_db("snapshot").unwrap_err().message, "unknown checkpoint kind: snapshot");
}

#[test]
fn message_role_maps_correctly() {
    assert_eq!((Message::System { content: "s".into() }).role(), "system");
    assert_eq!((Message::User { content: "u".into() }).role(), "user");
    assert_eq!(
        (Message::Assistant { content: Some("a".into()), refusal: None, tool_calls: None }).role(),
        "assistant"
    );
    assert_eq!((Message::Tool { tool_call_id: "id".into(), content: "t".into() }).role(), "tool");
}

fn call(id: &str, name: &str, args: &str) -> ChatToolCall {
    ChatToolCall {
        id: id.to_string(),
        type_: "function".to_string(),
        function: ChatFunctionCall { name: name.to_string(), arguments: args.to_string() },
    }
}

#[test]
fn openai_message_round_trip_preserves_tool_calls() {
    let codec = OpenAiCodec;
    let original = ChatMessage::Assistant {
        content: Some("calling tool".to_string()),
        name: None,
        tool_calls: Some(vec![call("call_1", "recall_memory_shard", "{\"shard_name\":\"dev-team\"}")]),
        refusal: None,
    };

    let persisted = codec.encode_message(&original).unwrap();
    let restored = codec.decode_message(&persisted).unwrap();

    match restored {
        ChatMessage::Assistant { content, tool_calls, refusal, .. } => {
            assert_eq!(content.as_deref(), Some("calling tool"));
            assert_eq!(refusal, None);
            let calls = tool_calls.expect("tool calls should be restored");
            assert_eq!(calls.len(), 1);
            assert_eq!(calls[0].id, "call_1");
            assert_eq!(calls[0].function.name, "recall_memory_shard");
            assert_eq!(calls[0].function.arguments, "{\"shard_name\":\"dev-team\"}");
        }
        other => panic!("unexpected restored message: {:?}", other),
    }
}

#[test]
fn openai_context_snapshot_excludes_tool_defs() {
    let codec = OpenAiCodec;
    let context = ContextBuilder::<ChatMessage, ()>::new("deepseek-v4-flash")
        .messages(vec![
            ChatMessage::System { content: "system".to_string(), name: None },
            ChatMessage::User { content: ChatUserContent::Text("hello".to_string()), name: None },
        ])
        .build();

    let snapshot = encode_context(&codec, &context).unwrap();

    assert_eq!(snapshot.model, "deepseek-v4-flash");
    assert_eq!(snapshot.messages.len(), 2);
}

#[test]
fn codec_refuses_developer_and_part_messages() {
    let dev = ChatMessage::Developer { content: "d".into(), name: None };
    assert_eq!(
        encode_chat_message(&dev).unwrap_err().message,
        "cannot persist OpenAI developer message as agent message"
    );
    let parts = ChatMessage::User { content: ChatUserContent::Parts(vec![]), name: None };
    assert_eq!(encode_chat_message(&parts).unwrap_err().message, "cannot persist non-text OpenAI user message");
}

#[test]
fn codec_drops_names_and_restores_function_type() {
    let named = ChatMessage::System { content: "sys".into(), name: Some("n".into()) };
    let stored = encode_chat_message(&named).unwrap();
    match decode_chat_message(&stored) {
        ChatMessage::System { content, name } => {
            assert_eq!(content, "sys");
            assert_eq!(name, None);
        }
        other => panic!("unexpected {:?}", other),
    }
    let odd = ChatMessage::Assistant {
        content: None,
        name: None,
        tool_calls: Some(vec![ChatToolCall {
            id: "c".into(),
            type_: "other".into(),
            function: ChatFunctionCall { name: "f".into(), arguments: "{}".into() },
        }]),
        refusal: None,
    };
    match decode_chat_message(&encode_chat_message(&odd).unwrap()) {
        ChatMessage::Assistant { tool_calls, .. } => assert_eq!(tool_calls.unwrap()[0].type_, "function"),
        other => panic!("unexpected {:?}", other),
    }
}

fn user(text: &str) -> Message {
    Message::User { content: text.to_string() }
}

#[test]
fn prefix_match_and_plan() {
    let base = vec![user("a"), user("b")];
    let longer = vec![user("a"), user("b"), user("c")];
    let other = vec![user("a"), user("x"), user("c")];
    assert!(prefix_match(&base, &longer));
    assert!(!prefix_match(&base, &other));
    assert!(!prefix_match(&longer, &base));
    assert!(prefix_match(&[], &base));

    let plan = plan_checkpoint(&base, &longer);
    assert!(plan.keep_base);
    assert_eq!(plan.first, 2);
    let reset = plan_checkpoint(&base, &other);
    assert!(!reset.keep_base);
    assert_eq!(reset.first, 0);
    assert_eq!(ref_positions(2, 5), vec![2, 3, 4]);
}

#[test]
fn messages_compare_by_content() {
    let a = Message::Assistant {
        content: Some("x".into()),
        refusal: None,
        tool_calls: Some(vec![ToolCall { id: "1".into(), name: "n".into(), args: "{}".into() }]),
    };
    let b = Message::Assistant {
        content: Some("x".into()),
        refusal: None,
        tool_calls: Some(vec![ToolCall { id: "1".into(), name: "n".into(), args: "{\"a\":1}".into() }]),
    };
    assert!(message_equals(&a, &a));
    assert!(!message_equals(&a, &b));
    assert!(!message_equals(&user("x"), &Message::System { content: "x".into() }));
}

fn texts(ms: &[Message]) -> Vec<String> {
    ms.iter()
        .map(|m| match m {
            Message::User { content } | Message::System { content } => content.clone(),
            _ => String::new(),
        })
        .collect()
}

#[test]
fn checkpoint_chain_reads_back_in_order() {
    let root = vec![(1, user("b")), (0, user("a"))];
    let top = vec![(2, user("c"))];
    let fork: Vec<(i32, Message)> = vec![];
    let messages = assemble_messages(vec![root, top, fork]);
    assert_eq!(texts(&messages), vec!["a", "b", "c"]);
}

#[test]
fn sort_level_keeps_order_at_equal_positions() {
    let sorted = sort_level(vec![(3, user("x")), (1, user("y")), (3, user("z")), (0, user("w"))]);
    let positions: Vec<i32> = sorted.iter().map(|(p, _)| *p).collect();
    assert_eq!(positions, vec![0, 1, 3, 3]);
    let names: Vec<String> = texts(&sorted.into_iter().map(|(_, m)| m).collect::<Vec<_>>());
    assert_eq!(names, vec!["w", "y", "x", "z"]);
}

#[test]
fn stored_message_hash_is_deterministic_and_keyed() {
    let a = hash_message(b"{\"role\":\"system\",\"content\":\"test\"}");
    let b = hash_message(b"{\"role\":\"system\",\"content\":\"test\"}");
    let c = hash_message(b"{\"role\":\"user\",\"content\":\"hello\"}");
    assert_eq!(a, b);
    assert_eq!(a.len(), 32);
    assert_ne!(a, c);
    assert_eq!(message_id_bytes(&a), a[..16].to_vec());
    assert_ne!(message_id_bytes(&a), message_id_bytes(&c));
}

#[test]
fn hash_of_empty_input_is_the_sha256_of_nothing() {
    let h = hash_message(b"");
    let hex: String = h.iter().map(|b| format!("{:02x}", b)).collect();
    assert_eq!(hex, "e3b0c44298fc1c149afbf4c8996fb92427ae41e4649b934ca495991b7852b855");
}

#[test]
fn stored_message_id_is_deterministic() {
    // The canonical JSON of `Message::System { content: "test" }`.
    let msg = br#"{"role":"system","content":"test"}"#;
    let (id1, hash1) = upsert_row(msg);
    let (id2, hash2) = upsert_row(msg);
    assert_eq!(id1, id2);
    assert_eq!(hash1, hash2);
    assert_eq!(id1.as_bytes().to_vec(), hash1[..16].to_vec());
}

#[test]
fn stored_message_id_differs_for_different_content() {
    let msg1 = br#"{"role":"user","content":"hello"}"#;
    let msg2 = br#"{"role":"user","content":"world"}"#;
    let (id1, _) = upsert_row(msg1);
    let (id2, _) = upsert_row(msg2);
    assert_ne!(id1, id2);
}

#[test]
fn manager_snapshots_go_through_its_codec() {
    let manager = poprako::session::SessionManager::new_openai(());
    let context = ContextBuilder::<ChatMessage, ()>::new("deepseek-v4-flash")
        .messages(vec![
            ChatMessage::System { content: "system".to_string(), name: None },
            ChatMessage::User { content: ChatUserContent::Text("hello".to_string()), name: None },
        ])
        .build();
    let snapshot = manager.encode_snapshot(&context).unwrap();
    assert_eq!(snapshot.model, "deepseek-v4-flash");
    assert_eq!(snapshot.messages.len(), 2);
    let back = manager.decode_snapshot(&snapshot).unwrap();
    assert_eq!(back.model(), "deepseek-v4-flash");
    assert_eq!(back.message_count(), 2);

    let refused = ContextBuilder::<ChatMessage, ()>::new("m")
        .messages(vec![ChatMessage::Developer { content: "d".into(), name: None }])
        .build();
    assert_eq!(
        manager.encode_snapshot(&refused).unwrap_err().message,
        "cannot persist OpenAI developer message as agent message"
    );
}

#[test]
fn a_checkpoint_rests_on_the_latest_or_else_the_fork_parent() {
    let latest = uuid::Uuid::from_bytes([1; 16]);
    let parent = uuid::Uuid::from_bytes([2; 16]);
    assert_eq!(checkpoint_base(Some(latest), Some(parent)), Some(latest));
    assert_eq!(checkpoint_base(Some(latest), None), Some(latest));
    assert_eq!(checkpoint_base(None, Some(parent)), Some(parent));
    assert_eq!(checkpoint_base(None, None), None);
}

#[test]
fn a_fork_points_to_its_parent_and_copies_its_snapshot() {
    let parent = uuid::Uuid::from_bytes([7; 16]);
    let parent_session = uuid::Uuid::from_bytes([8; 16]);
    let child_session = uuid::Uuid::from_bytes([9; 16]);
    let model = "deepseek-v4-flash".to_string();

    let session = first::fork_session_input(parent, parent_session, &model, Some("fork".into()));
    assert_eq!(session.name.as_deref(), Some("fork"));
    assert_eq!(session.model, model);
    assert_eq!(session.parent_session_id, Some(parent_session));
    assert_eq!(session.parent_checkpoint_id, Some(parent));

    let snapshot = first::ContextSnapshot {
        model: model.clone(),
        messages: vec![first::Message::User { content: "hi".into() }],
    };
    let checkpoint = first::fork_checkpoint_input(child_session, snapshot);
    assert_eq!(checkpoint.session_id, child_session);
    assert_eq!(checkpoint.run_id, None);
    assert_eq!(checkpoint.kind, first::CheckpointKind::Fork);
    assert_eq!(checkpoint.snapshot.model, model);
    assert_eq!(checkpoint.snapshot.messages.len(), 1);

    let current_session = poprako::session::persist::data_object::fork_session_input(parent, &model, None);
    assert_eq!(current_session.name, None);
    assert_eq!(current_session.model, model);
    assert_eq!(current_session.forked_from_checkpoint_id, Some(parent));
    let (fork, base) =
        poprako::session::persist::data_object::fork_checkpoint_input(child_session, parent, model.clone());
    assert_eq!(fork.session_id, child_session);
    assert_eq!(fork.solution_id, None);
    assert_eq!(fork.kind, poprako::session::persist::data_object::CheckpointKind::Fork);
    assert_eq!(fork.model, model);
    assert!(fork.messages.is_empty());
    assert_eq!(base, Some(parent));
}
