//! The error taxonomy of the library.
//!
//! `Error` covers the provider client and stream decoding; `AgentError`
//! covers the executor, the registry and the stores. Each error renders to a
//! human-readable line through `message`, whose exact text is part of the
//! contract.

use vstd::prelude::*;
use crate::text::{spec_decimal, u64_to_string};

verus! {

/// A failure of the provider client or of the stream decoder.
#[derive(Debug)]
pub enum Error {
    /// An I/O failure, by its description.
    Io(String),
    /// A transport failure, by its description.
    Http(String),
    /// A JSON failure, by its description.
    Json(String),
    /// The named provider is not configured.
    UnsupportedProvider(String),
    /// The configuration is invalid.
    InvalidConfig(String),
    /// A non-success HTTP status, with the response body.
    ApiError(u16, String),
    /// The provider's response had an unexpected shape.
    InvalidResponse(String),
    /// A streaming frame could not be decoded.
    Stream(String),
    /// The provider type offers no such operation.
    UnsupportedProviderType(String),
    /// A configured header value is not a legal header value.
    InvalidHeaderValue(String),
    /// A configured header name is not a legal header name.
    InvalidHeaderName(String),
}

/// The text `Error::message` renders.
pub open spec fn spec_error_message(e: Error) -> Seq<char> {
    match e {
        Error::Io(s) => "IO error: "@ + s@,
        Error::Http(s) => "HTTP error: "@ + s@,
        Error::Json(s) => "JSON error: "@ + s@,
        Error::UnsupportedProvider(s) => "Unsupported provider: "@ + s@,
        Error::InvalidConfig(s) => "Invalid configuration: "@ + s@,
        Error::ApiError(code, s) => "API error: "@ + spec_decimal(code as nat) + " - "@ + s@,
        Error::InvalidResponse(s) => "Invalid response: "@ + s@,
        Error::Stream(s) => "Stream error: "@ + s@,
        Error::UnsupportedProviderType(s) => "Unsupported provider type: "@ + s@,
        Error::InvalidHeaderValue(s) => "Invalid header value: "@ + s@,
        Error::InvalidHeaderName(s) => "Invalid header name: "@ + s@,
    }
}

impl Error {
    /// One human-readable line naming the failure.
    pub fn message(&self) -> (r: String)
        ensures
            r@ == spec_error_message(*self),
    {
        match self {
            Error::Io(s) => String::from_str("IO error: ").concat(s.as_str()),
            Error::Http(s) => String::from_str("HTTP error: ").concat(s.as_str()),
            Error::Json(s) => String::from_str("JSON error: ").concat(s.as_str()),
            Error::UnsupportedProvider(s) => String::from_str("Unsupported provider: ").concat(
                s.as_str(),
            ),
            Error::InvalidConfig(s) => String::from_str("Invalid configuration: ").concat(
                s.as_str(),
            ),
            Error::ApiError(code, s) => {
                let mut t = String::from_str("API error: ");
                let num = u64_to_string(*code as u64);
                t.append(num.as_str());
                t.append(" - ");
                t.append(s.as_str());
                t
            },
            Error::InvalidResponse(s) => String::from_str("Invalid response: ").concat(s.as_str()),
            Error::Stream(s) => String::from_str("Stream error: ").concat(s.as_str()),
            Error::UnsupportedProviderType(s) => String::from_str(
                "Unsupported provider type: ",
            ).concat(s.as_str()),
            Error::InvalidHeaderValue(s) => String::from_str("Invalid header value: ").concat(
                s.as_str(),
            ),
            Error::InvalidHeaderName(s) => String::from_str("Invalid header name: ").concat(
                s.as_str(),
            ),
        }
    }
}

/// A failure of the executor, the registry or one of the stores.
#[derive(Debug)]
pub enum AgentError {
    /// A provider-client failure carried through the executor.
    Llm(Error),
    /// The invoked capability reported a business failure.
    ToolExecution(String),
    /// No capability of that name is registered.
    ToolNotFound(String),
    /// The tool-call arguments were not well-formed JSON.
    InvalidToolArguments(String),
    /// A state-store failure.
    State(String),
    /// A context-store failure.
    Context(String),
    /// The run exceeded its time budget.
    Timeout,
    /// The run exhausted its iteration bound without resolving.
    MaxIterationsExceeded,
    /// The agent was invoked before it was set up.
    NotInitialized,
    /// The configuration is invalid.
    InvalidConfig(String),
    /// An I/O failure, by its description.
    Io(String),
    /// A serialization failure, by its description.
    Serialization(String),
    /// Any other failure.
    Other(String),
}

/// The text `AgentError::message` renders.
pub open spec fn spec_agent_error_message(e: AgentError) -> Seq<char> {
    match e {
        AgentError::Llm(inner) => "LLM error: "@ + spec_error_message(inner),
        AgentError::ToolExecution(s) => "Tool execution failed: "@ + s@,
        AgentError::ToolNotFound(s) => "Tool not found: "@ + s@,
        AgentError::InvalidToolArguments(s) => "Invalid tool arguments: "@ + s@,
        AgentError::State(s) => "State error: "@ + s@,
        AgentError::Context(s) => "Context error: "@ + s@,
        AgentError::Timeout => "Execution timeout"@,
        AgentError::MaxIterationsExceeded => "Maximum iterations exceeded"@,
        AgentError::NotInitialized => "Agent not initialized"@,
        AgentError::InvalidConfig(s) => "Invalid configuration: "@ + s@,
        AgentError::Io(s) => "IO error: "@ + s@,
        AgentError::Serialization(s) => "Serialization error: "@ + s@,
        AgentError::Other(s) => "Other error: "@ + s@,
    }
}

impl AgentError {
    /// One human-readable line naming the failure.
    pub fn message(&self) -> (r: String)
        ensures
            r@ == spec_agent_error_message(*self),
    {
        match self {
            AgentError::Llm(inner) => {
                let m = inner.message();
                String::from_str("LLM error: ").concat(m.as_str())
            },
            AgentError::ToolExecution(s) => String::from_str("Tool execution failed: ").concat(
                s.as_str(),
            ),
            AgentError::ToolNotFound(s) => String::from_str("Tool not found: ").concat(s.as_str()),
            AgentError::InvalidToolArguments(s) => String::from_str(
                "Invalid tool arguments: ",
            ).concat(s.as_str()),
            AgentError::State(s) => String::from_str("State error: ").concat(s.as_str()),
            AgentError::Context(s) => String::from_str("Context error: ").concat(s.as_str()),
            AgentError::Timeout => String::from_str("Execution timeout"),
            AgentError::MaxIterationsExceeded => String::from_str("Maximum iterations exceeded"),
            AgentError::NotInitialized => String::from_str("Agent not initialized"),
            AgentError::InvalidConfig(s) => String::from_str("Invalid configuration: ").concat(
                s.as_str(),
            ),
            AgentError::Io(s) => String::from_str("IO error: ").concat(s.as_str()),
            AgentError::Serialization(s) => String::from_str("Serialization error: ").concat(
                s.as_str(),
            ),
            AgentError::Other(s) => String::from_str("Other error: ").concat(s.as_str()),
        }
    }
}

pub type AgentResult<T> = Result<T, AgentError>;

} // verus!
