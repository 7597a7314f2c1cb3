use pi_agent::context::Context;
use pi_agent::errors::AgentError;
use pi_agent::executor::{ExecutionResult, Executor, ExecutorConfig};
use pi_agent::message::{FunctionCall, Message, MessageRole, ToolCall};
use pi_agent::tool::{Property, Tool, ToolExecutionResult, ToolHandler, ToolParameters};
use pi_agent::tool_registry::ToolRegistry;

struct StubTool {
    name: String,
    fail: bool,
}

impl ToolHandler for StubTool {
    fn name(&self) -> String {
        self.name.clone()
    }

    fn description(&self) -> String {
        "a stub capability".to_string()
    }

    fn parameters(&self) -> ToolParameters {
        ToolParameters::new().with_property(
            "city",
            Property {
                prop_type: "string".to_string(),
                description: Some("which city".to_string()),
                enum_values: None,
            },
        )
    }

    fn execute(
        &self,
        _arguments: serde_json::Value,
    ) -> Result<ToolExecutionResult, AgentError> {
        if self.fail {
            Ok(ToolExecutionResult::failure("stub broke"))
        } else {
            Ok(ToolExecutionResult::success("sunny"))
        }
    }
}

fn tool_call_message(id: &str, name: &str, arguments: &str) -> Message {
    Message::assistant("").with_tool_calls(vec![ToolCall {
        id: id.to_string(),
        tool_type: "function".to_string(),
        function: FunctionCall {
            name: name.to_string(),
            arguments: arguments.to_string(),
        },
    }])
}

fn run(
    config: ExecutorConfig,
    registry: &ToolRegistry,
    responses: Vec<Message>,
) -> ExecutionResult {
    let executor = Executor::new(config);
    let mut context = Context::new("run");
    context.add_user_message("go");
    let mut state = executor.begin();
    let mut next = 0;
    while executor.should_continue(&state) && next < responses.len() {
        let message = responses[next].clone();
        next += 1;
        executor.process_response(&mut context, registry, &mut state, message);
    }
    executor.finish(&context, state)
}

#[test]
fn plain_content_resolves_in_one_iteration() {
    let registry = ToolRegistry::new();
    let result = run(
        ExecutorConfig::default(),
        &registry,
        vec![Message::assistant("all done")],
    );
    assert_eq!(result.iterations, 1);
    assert!(result.success);
    assert!(result.tool_calls.is_empty());
    assert!(result.error.is_none());
    let last = result.messages.last().unwrap();
    assert_eq!(last.role, MessageRole::Assistant);
    assert_eq!(last.content, "all done");
}

#[test]
fn one_tool_call_then_content_takes_two_iterations() {
    let mut registry = ToolRegistry::new();
    registry
        .register(Tool::new(Box::new(StubTool { name: "weather".to_string(), fail: false })))
        .unwrap();
    let result = run(
        ExecutorConfig::default(),
        &registry,
        vec![
            tool_call_message("call-1", "weather", "{\"city\":\"Paris\"}"),
            Message::assistant("it is sunny"),
        ],
    );
    assert_eq!(result.iterations, 2);
    assert!(result.success);
    assert_eq!(result.tool_calls.len(), 1);
    assert!(result.tool_calls[0].success);
    assert_eq!(result.tool_calls[0].id, "call-1");
    assert_eq!(result.tool_calls[0].name, "weather");
    assert_eq!(result.tool_calls[0].result, Some("sunny".to_string()));
    let tool_turn = result
        .messages
        .iter()
        .find(|m| m.role == MessageRole::Tool)
        .expect("a tool message was appended");
    assert_eq!(tool_turn.content, "sunny");
    assert_eq!(tool_turn.tool_call_id, Some("call-1".to_string()));
}

#[test]
fn stop_on_tool_error_ends_the_run_at_the_failing_iteration() {
    let mut registry = ToolRegistry::new();
    registry
        .register(Tool::new(Box::new(StubTool { name: "broken".to_string(), fail: true })))
        .unwrap();
    let mut config = ExecutorConfig::default();
    config.stop_on_tool_error = true;
    let result = run(
        config,
        &registry,
        vec![
            tool_call_message("call-9", "broken", "{}"),
            Message::assistant("never reached"),
        ],
    );
    assert_eq!(result.iterations, 1);
    assert!(!result.success);
    let error = result.error.expect("error text is present");
    assert_eq!(error, "Tool execution failed: stub broke");
}

#[test]
fn soft_failure_feeds_an_error_message_back() {
    let mut registry = ToolRegistry::new();
    registry
        .register(Tool::new(Box::new(StubTool { name: "broken".to_string(), fail: true })))
        .unwrap();
    let result = run(
        ExecutorConfig::default(),
        &registry,
        vec![tool_call_message("call-2", "broken", "{}")],
    );
    assert_eq!(result.iterations, 1);
    assert!(result.success);
    assert_eq!(result.tool_calls.len(), 1);
    assert!(!result.tool_calls[0].success);
    assert_eq!(
        result.tool_calls[0].result,
        Some("Error: Tool execution failed: stub broke".to_string())
    );
    let tool_turn = result
        .messages
        .iter()
        .find(|m| m.role == MessageRole::Tool)
        .expect("the soft failure is visible in the transcript");
    assert_eq!(tool_turn.content, "Error: Tool execution failed: stub broke");
}

#[test]
fn invalid_arguments_are_a_failed_call_not_a_crash() {
    let mut registry = ToolRegistry::new();
    registry
        .register(Tool::new(Box::new(StubTool { name: "weather".to_string(), fail: false })))
        .unwrap();
    let result = run(
        ExecutorConfig::default(),
        &registry,
        vec![tool_call_message("call-3", "weather", "this is not json")],
    );
    assert_eq!(result.tool_calls.len(), 1);
    assert!(!result.tool_calls[0].success);
    let text = result.tool_calls[0].result.clone().unwrap();
    assert!(text.starts_with("Error: Invalid tool arguments: "));
}

#[test]
fn auto_execution_off_only_records_requests() {
    let mut registry = ToolRegistry::new();
    registry
        .register(Tool::new(Box::new(StubTool { name: "weather".to_string(), fail: false })))
        .unwrap();
    let mut config = ExecutorConfig::default();
    config.auto_tool_execution = false;
    let result = run(
        config,
        &registry,
        vec![tool_call_message("call-4", "weather", "{}")],
    );
    assert_eq!(result.iterations, 1);
    assert_eq!(result.tool_calls.len(), 1);
    assert!(!result.tool_calls[0].success);
    assert!(result.tool_calls[0].result.is_none());
    assert!(result.messages.iter().all(|m| m.role != MessageRole::Tool));
}

#[test]
fn exhausting_the_iteration_bound_is_not_success() {
    let mut registry = ToolRegistry::new();
    registry
        .register(Tool::new(Box::new(StubTool { name: "weather".to_string(), fail: false })))
        .unwrap();
    let mut config = ExecutorConfig::default();
    config.max_iterations = 2;
    let result = run(
        config,
        &registry,
        vec![
            tool_call_message("c1", "weather", "{}"),
            tool_call_message("c2", "weather", "{}"),
            tool_call_message("c3", "weather", "{}"),
        ],
    );
    assert_eq!(result.iterations, 2);
    assert!(!result.success);
    assert_eq!(result.error, Some("Maximum iterations exceeded".to_string()));
}

#[test]
fn execute_on_unregistered_name_is_tool_not_found() {
    let registry = ToolRegistry::new();
    let outcome = registry.execute("missing", serde_json::Value::Null);
    match outcome {
        Err(AgentError::ToolNotFound(name)) => assert_eq!(name, "missing"),
        _ => panic!("expected ToolNotFound"),
    }
}

#[test]
fn register_then_unregister_leaves_no_trace() {
    let mut registry = ToolRegistry::new();
    registry
        .register(Tool::new(Box::new(StubTool { name: "a".to_string(), fail: false })))
        .unwrap();
    assert!(registry.contains("a"));
    assert_eq!(registry.count(), 1);
    registry.unregister("a").unwrap();
    assert!(!registry.contains("a"));
    assert_eq!(registry.count(), 0);
    match registry.unregister("a") {
        Err(AgentError::ToolNotFound(name)) => assert_eq!(name, "a"),
        _ => panic!("expected ToolNotFound"),
    }
}

#[test]
fn definitions_round_trip_the_declared_schema() {
    let mut registry = ToolRegistry::new();
    registry
        .register(Tool::new(Box::new(StubTool { name: "weather".to_string(), fail: false })))
        .unwrap();
    let defs = registry.get_tool_definitions();
    assert_eq!(defs.len(), 1);
    let def = &defs[0];
    assert_eq!(def.tool_type, "function");
    assert_eq!(def.function.name, "weather");
    assert_eq!(def.function.description, Some("a stub capability".to_string()));
    assert_eq!(def.function.parameters.schema_type, "object");
    let city = def
        .function
        .parameters
        .properties
        .get("city")
        .expect("the declared property survives export");
    assert_eq!(city.property_type, "string");
    assert_eq!(city.description, Some("which city".to_string()));
}

#[test]
fn registry_lists_names_in_registration_order() {
    let mut registry = ToolRegistry::new();
    registry
        .register(Tool::new(Box::new(StubTool { name: "one".to_string(), fail: false })))
        .unwrap();
    registry
        .register(Tool::new(Box::new(StubTool { name: "two".to_string(), fail: false })))
        .unwrap();
    let names = registry.list();
    assert_eq!(names, vec!["one".to_string(), "two".to_string()]);
}

#[test]
fn prepare_turn_seeds_the_system_prompt_once() {
    let mut ctx = Context::new("turn");
    pi_agent::agent::prepare_turn(&mut ctx, "be nice", "hello");
    assert_eq!(ctx.message_count(), 2);
    pi_agent::agent::prepare_turn(&mut ctx, "be nice", "again");
    assert_eq!(ctx.message_count(), 3);
    let messages = ctx.get_messages();
    assert_eq!(messages[0].role, MessageRole::System);
    assert_eq!(messages[1].content, "hello");
    assert_eq!(messages[2].content, "again");
}

#[test]
fn tool_outcome_constructors_report_shape() {
    let ok = ToolExecutionResult::success("fine");
    assert!(ok.success);
    assert_eq!(ok.output, "fine");
    assert!(ok.error.is_none());
    let bad = ToolExecutionResult::failure("broke");
    assert!(!bad.success);
    assert_eq!(bad.error, Some("broke".to_string()));
    let tagged = ok.with_metadata("k", serde_json::Value::Bool(true));
    assert!(tagged.metadata.contains_key("k"));
}
