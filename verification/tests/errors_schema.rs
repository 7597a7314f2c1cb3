use pi_agent::agent::AgentConfig;
use pi_agent::config::Config;
use pi_agent::errors::{AgentError, Error};
use pi_agent::executor::ExecutorConfig;
use pi_agent::models::{ChatCompletionRequest, ToolChoice};
use pi_agent::provider::ProviderConfig;
use pi_agent::models::ToolDefinition;
use pi_agent::schema::{Property, Tool, ToolInputSchema};
use pi_agent::text::{line_count, str_eq, str_eq_ignore_case, str_has_prefix, str_trim, u64_to_string};

#[test]
fn error_messages_render_exactly() {
    assert_eq!(
        Error::UnsupportedProvider("nowhere".to_string()).message(),
        "Unsupported provider: nowhere"
    );
    assert_eq!(
        Error::ApiError(404, "missing".to_string()).message(),
        "API error: 404 - missing"
    );
    assert_eq!(Error::Stream("cut".to_string()).message(), "Stream error: cut");
}

#[test]
fn agent_error_messages_render_exactly() {
    assert_eq!(
        AgentError::ToolNotFound("f".to_string()).message(),
        "Tool not found: f"
    );
    assert_eq!(
        AgentError::InvalidToolArguments("bad".to_string()).message(),
        "Invalid tool arguments: bad"
    );
    assert_eq!(AgentError::Timeout.message(), "Execution timeout");
    assert_eq!(AgentError::NotInitialized.message(), "Agent not initialized");
    assert_eq!(
        AgentError::Llm(Error::ApiError(500, "boom".to_string())).message(),
        "LLM error: API error: 500 - boom"
    );
}

#[test]
fn decimal_rendering_matches_the_number() {
    assert_eq!(u64_to_string(0), "0");
    assert_eq!(u64_to_string(7), "7");
    assert_eq!(u64_to_string(6510), "6510");
    assert_eq!(u64_to_string(u64::MAX), format!("{}", u64::MAX));
}

#[test]
fn text_helpers_behave_like_std() {
    assert!(str_eq("abc", "abc"));
    assert!(!str_eq("abc", "abd"));
    assert!(str_eq_ignore_case("OpenAI", "openai"));
    assert!(!str_eq_ignore_case("abc", "abd"));
    assert!(str_has_prefix("data: x", "data: "));
    assert!(!str_has_prefix("dat", "data: "));
    assert_eq!(str_trim("  hi \r\n"), "hi");
    assert_eq!(str_trim("\t \n"), "");
    assert_eq!(line_count(""), 0);
    assert_eq!(line_count("one"), 1);
    assert_eq!(line_count("one\ntwo\n"), 2);
    assert_eq!(line_count("one\n\ntwo"), 3);
}

#[test]
fn schema_builders_compose() {
    let schema = ToolInputSchema::new()
        .with_property("city", Property::string().with_description("which city"))
        .with_property("days", Property::integer())
        .with_required(vec!["city".to_string()]);
    assert_eq!(schema.schema_type, "object");
    assert_eq!(schema.required, Some(vec!["city".to_string()]));
    let city = schema.properties.get("city").unwrap();
    assert_eq!(city.property_type, "string");
    assert_eq!(city.description, Some("which city".to_string()));
    let days = schema.properties.get("days").unwrap();
    assert_eq!(days.property_type, "integer");
    assert!(schema.properties.get("missing").is_none());

    let nested = Property::array(Property::boolean());
    assert_eq!(nested.property_type, "array");
    assert_eq!(nested.items.as_ref().unwrap().property_type, "boolean");

    let tagged = Property::string().with_enum(vec!["a".to_string(), "b".to_string()]);
    assert_eq!(tagged.enum_values, Some(vec!["a".to_string(), "b".to_string()]));
    assert_eq!(Property::number().property_type, "number");
    assert_eq!(Property::object().property_type, "object");
}

#[test]
fn tool_definition_wraps_the_schema() {
    let schema = ToolInputSchema::new().with_property("q", Property::string());
    let def = ToolDefinition::new("search", schema).with_description("finds things");
    assert_eq!(def.tool_type, "function");
    assert_eq!(def.function.name, "search");
    assert_eq!(def.function.description, Some("finds things".to_string()));
    assert!(def.function.parameters.properties.get("q").is_some());

    let named = Tool::new("search", "finds things", ToolInputSchema::new());
    let d2 = named.to_definition();
    assert_eq!(d2.tool_type, "function");
    assert_eq!(d2.function.name, "search");
    assert_eq!(d2.function.description, Some("finds things".to_string()));
}

#[test]
fn request_builders_fill_the_fields() {
    let req = ChatCompletionRequest::new("gpt-4", Vec::new())
        .with_max_tokens(64)
        .with_stream(true)
        .with_tool_choice(ToolChoice::auto());
    assert_eq!(req.model, "gpt-4");
    assert_eq!(req.max_tokens, Some(64));
    assert_eq!(req.stream, Some(true));
    assert!(req.tool_choice.is_some());
    assert!(req.tools.is_none());
}

#[test]
fn config_holds_named_providers() {
    let mut pc = ProviderConfig::empty();
    pc.api_key = "secret".to_string();
    pc.base_url = "https://example.test".to_string();
    let config = Config::new()
        .with_provider("mine", pc)
        .with_default_provider("mine");
    assert_eq!(config.default_provider, "mine");
    let held = config.get_provider("mine").unwrap();
    assert_eq!(held.base_url, "https://example.test");
    assert!(config.get_provider("absent").is_none());
}

#[test]
fn agent_config_builders_compose() {
    let mut exec = ExecutorConfig::default();
    exec.max_iterations = 4;
    let config = AgentConfig::new("a1", "helper", "be nice")
        .with_description("a test agent")
        .with_model("gpt-4o")
        .with_max_tokens(256)
        .with_executor_config(exec)
        .with_enabled_tools(vec!["weather".to_string()]);
    assert_eq!(config.id, "a1");
    assert_eq!(config.description, Some("a test agent".to_string()));
    assert_eq!(config.model, "gpt-4o");
    assert_eq!(config.max_tokens, Some(256));
    assert_eq!(config.executor_config.max_iterations, 4);
    assert_eq!(config.enabled_tools, vec!["weather".to_string()]);
}
