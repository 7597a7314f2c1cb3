//! Request and response shapes of the provider chat endpoint.
//!
//! Sampling knobs carried as floating-point numbers (temperature, top-p,
//! penalties) are applied by the transport layer outside the library; the
//! shapes here hold everything the executor's logic reads or writes.

use vstd::prelude::*;
use crate::message::Message;
use crate::schema::ToolInputSchema;

verus! {

/// One capability description sent to the provider.
pub struct ToolDefinition {
    pub tool_type: String,
    pub function: FunctionDefinition,
}

pub struct FunctionDefinition {
    pub name: String,
    pub description: Option<String>,
    pub parameters: ToolInputSchema,
}

/// A provider tool definition is structurally valid when it declares the
/// `function` kind and an object-typed parameter schema.
pub open spec fn definition_valid(d: ToolDefinition) -> bool {
    &&& d.tool_type@ == "function"@
    &&& crate::schema::schema_wf(d.function.parameters)
}

impl ToolDefinition {
    pub fn new(name: &str, parameters: ToolInputSchema) -> (r: ToolDefinition)
        requires
            crate::schema::schema_wf(parameters),
        ensures
            r.tool_type@ == "function"@,
            r.function.name@ == name@,
            r.function.description is None,
            r.function.parameters == parameters,
            definition_valid(r),
    {
        ToolDefinition {
            tool_type: String::from_str("function"),
            function: FunctionDefinition {
                name: name.to_owned(),
                description: None,
                parameters,
            },
        }
    }

    pub fn with_description(self, description: &str) -> (r: ToolDefinition)
        ensures
            r.tool_type == self.tool_type,
            r.function.name == self.function.name,
            r.function.description matches Some(d) && d@ == description@,
            r.function.parameters == self.function.parameters,
    {
        ToolDefinition {
            tool_type: self.tool_type,
            function: FunctionDefinition {
                name: self.function.name,
                description: Some(description.to_owned()),
                parameters: self.function.parameters,
            },
        }
    }
}

/// How the provider may pick tools for a turn.
pub enum ToolChoice {
    Auto(String),
    Off(String),
    Required(String),
    Function { function: FunctionChoice },
}

pub struct FunctionChoice {
    pub name: String,
}

impl ToolChoice {
    pub fn auto() -> (r: ToolChoice)
        ensures
            r matches ToolChoice::Auto(s) && s@ == "auto"@,
    {
        ToolChoice::Auto(String::from_str("auto"))
    }

    pub fn none() -> (r: ToolChoice)
        ensures
            r matches ToolChoice::Off(s) && s@ == "none"@,
    {
        ToolChoice::Off(String::from_str("none"))
    }

    pub fn required() -> (r: ToolChoice)
        ensures
            r matches ToolChoice::Required(s) && s@ == "required"@,
    {
        ToolChoice::Required(String::from_str("required"))
    }

    pub fn function(name: &str) -> (r: ToolChoice)
        ensures
            r matches ToolChoice::Function { function } && function.name@ == name@,
    {
        ToolChoice::Function { function: FunctionChoice { name: name.to_owned() } }
    }
}

/// A chat-completion request: the conversation so far plus the capability
/// definitions the model may call.
pub struct ChatCompletionRequest {
    pub model: String,
    pub messages: Vec<Message>,
    pub tools: Option<Vec<ToolDefinition>>,
    pub tool_choice: Option<ToolChoice>,
    pub max_tokens: Option<u32>,
    pub stream: Option<bool>,
    pub stop: Option<Vec<String>>,
    pub user: Option<String>,
}

impl ChatCompletionRequest {
    pub fn new(model: &str, messages: Vec<Message>) -> (r: ChatCompletionRequest)
        ensures
            r.model@ == model@,
            r.messages == messages,
            r.tools is None,
            r.tool_choice is None,
            r.max_tokens is None,
            r.stream is None,
            r.stop is None,
            r.user is None,
    {
        ChatCompletionRequest {
            model: model.to_owned(),
            messages,
            tools: None,
            tool_choice: None,
            max_tokens: None,
            stream: None,
            stop: None,
            user: None,
        }
    }

    pub fn with_max_tokens(self, max_tokens: u32) -> (r: ChatCompletionRequest)
        ensures
            r == (ChatCompletionRequest { max_tokens: Some(max_tokens), ..self }),
    {
        ChatCompletionRequest { max_tokens: Some(max_tokens), ..self }
    }

    pub fn with_tools(self, tools: Vec<ToolDefinition>) -> (r: ChatCompletionRequest)
        ensures
            r == (ChatCompletionRequest { tools: Some(tools), ..self }),
    {
        ChatCompletionRequest { tools: Some(tools), ..self }
    }

    pub fn with_tool_choice(self, choice: ToolChoice) -> (r: ChatCompletionRequest)
        ensures
            r == (ChatCompletionRequest { tool_choice: Some(choice), ..self }),
    {
        ChatCompletionRequest { tool_choice: Some(choice), ..self }
    }

    pub fn with_stream(self, stream: bool) -> (r: ChatCompletionRequest)
        ensures
            r == (ChatCompletionRequest { stream: Some(stream), ..self }),
    {
        ChatCompletionRequest { stream: Some(stream), ..self }
    }
}

/// Token accounting returned with a completion.
#[derive(Clone, Copy, Debug, PartialEq, Eq, Structural)]
pub struct Usage {
    pub prompt_tokens: u32,
    pub completion_tokens: u32,
    pub total_tokens: u32,
}

/// One returned choice of a completion.
pub struct CompletionChoice {
    pub index: u32,
    pub message: Message,
    pub finish_reason: Option<String>,
    pub logprobs: Option<serde_json::Value>,
}

/// A non-streaming chat-completion response.
pub struct ChatCompletionResponse {
    pub id: String,
    pub object: String,
    pub created: u64,
    pub model: String,
    pub choices: Vec<CompletionChoice>,
    pub usage: Usage,
    pub system_fingerprint: Option<String>,
}

} // verus!
