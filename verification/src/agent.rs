//! Agent identity and per-turn context preparation.
//!
//! The async shell that owns the transport holds the stores and drives the
//! executor; what it decides — how a turn's context is prepared before the
//! first provider request — lives here, verified.

use vstd::prelude::*;
use crate::context::{spec_add_message, Context};
use crate::executor::ExecutorConfig;
use crate::message::{MessageRole, MessageView};
use crate::text::clone_strings;

verus! {

/// The static description of one agent.
pub struct AgentConfig {
    pub id: String,
    pub name: String,
    pub description: Option<String>,
    pub system_prompt: String,
    pub model: String,
    pub max_tokens: Option<u32>,
    pub executor_config: ExecutorConfig,
    pub enabled_tools: Vec<String>,
}

impl AgentConfig {
    pub fn new(id: &str, name: &str, system_prompt: &str) -> (r: AgentConfig)
        ensures
            r.id@ == id@,
            r.name@ == name@,
            r.description is None,
            r.system_prompt@ == system_prompt@,
            r.model@ == "gpt-4"@,
            r.max_tokens is None,
            r.executor_config == (ExecutorConfig {
                max_iterations: 10usize,
                timeout_secs: 300u64,
                enable_tools: true,
                auto_tool_execution: true,
                stop_on_tool_error: false,
            }),
            r.enabled_tools@.len() == 0,
    {
        AgentConfig {
            id: id.to_owned(),
            name: name.to_owned(),
            description: None,
            system_prompt: system_prompt.to_owned(),
            model: String::from_str("gpt-4"),
            max_tokens: None,
            executor_config: ExecutorConfig::default(),
            enabled_tools: Vec::new(),
        }
    }

    pub fn with_description(self, description: &str) -> (r: AgentConfig)
        ensures
            r.description matches Some(d) && d@ == description@,
            r.id == self.id,
            r.name == self.name,
            r.system_prompt == self.system_prompt,
            r.model == self.model,
            r.max_tokens == self.max_tokens,
            r.executor_config == self.executor_config,
            r.enabled_tools == self.enabled_tools,
    {
        AgentConfig { description: Some(description.to_owned()), ..self }
    }

    pub fn with_model(self, model: &str) -> (r: AgentConfig)
        ensures
            r.model@ == model@,
            r.id == self.id,
            r.name == self.name,
            r.description == self.description,
            r.system_prompt == self.system_prompt,
            r.max_tokens == self.max_tokens,
            r.executor_config == self.executor_config,
            r.enabled_tools == self.enabled_tools,
    {
        AgentConfig { model: model.to_owned(), ..self }
    }

    pub fn with_max_tokens(self, max_tokens: u32) -> (r: AgentConfig)
        ensures
            r == (AgentConfig { max_tokens: Some(max_tokens), ..self }),
    {
        AgentConfig { max_tokens: Some(max_tokens), ..self }
    }

    pub fn with_executor_config(self, config: ExecutorConfig) -> (r: AgentConfig)
        ensures
            r == (AgentConfig { executor_config: config, ..self }),
    {
        AgentConfig { executor_config: config, ..self }
    }

    pub fn with_enabled_tools(self, tools: Vec<String>) -> (r: AgentConfig)
        ensures
            r == (AgentConfig { enabled_tools: tools, ..self }),
    {
        AgentConfig { enabled_tools: tools, ..self }
    }
}

/// Prepares a context for one chat turn: an empty history first receives
/// the system prompt, then the user's message joins in either case.
pub fn prepare_turn(context: &mut Context, system_prompt: &str, user_message: &str)
    requires
        old(context).wf(),
    ensures
        final(context).wf(),
        final(context).id == old(context).id,
        final(context).max_messages == old(context).max_messages,
        old(context).msgs().len() == 0 ==> final(context).msgs() == spec_add_message(
            spec_add_message(
                Seq::empty(),
                old(context).max_messages as nat,
                MessageView {
                    role: MessageRole::System,
                    content: system_prompt@,
                    name: None,
                    tool_calls: None,
                    tool_call_id: None,
                },
            ),
            old(context).max_messages as nat,
            MessageView {
                role: MessageRole::User,
                content: user_message@,
                name: None,
                tool_calls: None,
                tool_call_id: None,
            },
        ),
        old(context).msgs().len() > 0 ==> final(context).msgs() == spec_add_message(
            old(context).msgs(),
            old(context).max_messages as nat,
            MessageView {
                role: MessageRole::User,
                content: user_message@,
                name: None,
                tool_calls: None,
                tool_call_id: None,
            },
        ),
{
    if context.message_count() == 0 {
        proof {
            assert(old(context).msgs() =~= Seq::<MessageView>::empty());
        }
        context.add_system_message(system_prompt);
    }
    context.add_user_message(user_message);
}

} // verus!
