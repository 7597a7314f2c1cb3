use pi_agent::context::{Context, ContextManager};
use pi_agent::message::{Message, MessageRole};

#[test]
fn appending_within_bound_keeps_every_message() {
    let mut ctx = Context::new("c1");
    for i in 0..5 {
        ctx.add_user_message(&format!("message {}", i));
    }
    assert_eq!(ctx.message_count(), 5);
}

#[test]
fn appending_beyond_bound_trims_to_the_bound() {
    let mut ctx = Context::new("c2").with_max_messages(3);
    for i in 0..10 {
        ctx.add_user_message(&format!("message {}", i));
    }
    assert_eq!(ctx.message_count(), 3);
    let messages = ctx.get_messages();
    assert_eq!(messages[0].content, "message 7");
    assert_eq!(messages[2].content, "message 9");
}

#[test]
fn leading_system_message_survives_trimming() {
    let mut ctx = Context::new("c3").with_max_messages(3);
    ctx.add_system_message("rules");
    for i in 0..20 {
        ctx.add_user_message(&format!("message {}", i));
    }
    assert_eq!(ctx.message_count(), 3);
    let messages = ctx.get_messages();
    assert_eq!(messages[0].role, MessageRole::System);
    assert_eq!(messages[0].content, "rules");
    let system_count = messages
        .iter()
        .filter(|m| m.role == MessageRole::System)
        .count();
    assert_eq!(system_count, 1);
    assert_eq!(messages[2].content, "message 19");
}

#[test]
fn last_n_messages_come_in_order() {
    let mut ctx = Context::new("c4");
    ctx.add_user_message("a");
    ctx.add_user_message("b");
    ctx.add_user_message("c");
    let last = ctx.get_last_n_messages(2);
    assert_eq!(last.len(), 2);
    assert_eq!(last[0].content, "b");
    assert_eq!(last[1].content, "c");
    let all = ctx.get_last_n_messages(10);
    assert_eq!(all.len(), 3);
}

#[test]
fn clear_and_reset_restart_the_history() {
    let mut ctx = Context::new("c5");
    ctx.add_user_message("hello");
    ctx.clear();
    assert_eq!(ctx.message_count(), 0);
    ctx.add_user_message("again");
    ctx.reset(Some("sys"));
    assert_eq!(ctx.message_count(), 1);
    let messages = ctx.get_messages();
    assert_eq!(messages[0].role, MessageRole::System);
    assert_eq!(messages[0].content, "sys");
    ctx.reset(None);
    assert_eq!(ctx.message_count(), 0);
}

#[test]
fn updated_at_never_moves_backwards() {
    let mut ctx = Context::new("c6");
    let t0 = ctx.metadata.updated_at;
    ctx.add_user_message("x");
    let t1 = ctx.metadata.updated_at;
    assert!(t1 >= t0);
    ctx.add_user_message("y");
    assert!(ctx.metadata.updated_at >= t1);
    assert_eq!(ctx.metadata.created_at, t0.min(ctx.metadata.created_at));
}

#[test]
fn tags_are_deduplicated_and_removable() {
    let mut ctx = Context::new("c7");
    ctx.add_tag("alpha");
    ctx.add_tag("beta");
    ctx.add_tag("alpha");
    assert_eq!(ctx.metadata.tags.len(), 2);
    assert!(ctx.has_tag("alpha"));
    ctx.remove_tag("alpha");
    assert!(!ctx.has_tag("alpha"));
    assert!(ctx.has_tag("beta"));
}

#[test]
fn token_estimate_counts_quarters() {
    let mut ctx = Context::new("c8");
    ctx.add_user_message("12345678");
    ctx.add_user_message("1234");
    assert_eq!(ctx.token_estimate(), 3);
}

#[test]
fn message_with_tool_calls_keeps_them() {
    let call = pi_agent::message::ToolCall {
        id: "id-1".to_string(),
        tool_type: "function".to_string(),
        function: pi_agent::message::FunctionCall {
            name: "f".to_string(),
            arguments: "{}".to_string(),
        },
    };
    let msg = Message::assistant("").with_tool_calls(vec![call]).with_name("bot");
    assert_eq!(msg.name, Some("bot".to_string()));
    let calls = msg.tool_calls.expect("tool calls kept");
    assert_eq!(calls.len(), 1);
    assert_eq!(calls[0].function.name, "f");
}

#[test]
fn manager_tracks_contexts_by_id() {
    let mut manager = ContextManager::new();
    manager.create("one");
    manager.create("two");
    assert_eq!(manager.list_ids().len(), 2);
    assert!(manager.get("one").is_some());
    assert!(manager.get("three").is_none());

    let mut ctx = manager.get("one").unwrap().clone();
    ctx.add_user_message("hi");
    manager.update("one", ctx).expect("update succeeds");
    assert_eq!(manager.get("one").unwrap().message_count(), 1);

    let err = manager.update("three", Context::new("three"));
    assert!(err.is_err());
    match err {
        Err(e) => assert_eq!(e.message(), "Context error: Context three not found"),
        Ok(_) => panic!("expected an error"),
    }

    manager.delete("one");
    assert!(manager.get("one").is_none());
    manager.clear();
    assert_eq!(manager.list_ids().len(), 0);
}

#[test]
fn manager_list_clones_every_context() {
    let mut manager = ContextManager::new();
    manager.create("a");
    manager.create("b");
    let all = manager.list();
    assert_eq!(all.len(), 2);
}
