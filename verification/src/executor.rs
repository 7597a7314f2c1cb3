//! The orchestration state machine.
//!
//! One run is a bounded loop of iterations. Each iteration the driver —
//! whatever owns the transport — sends the conversation to the provider
//! and hands the returned message to `process_response`, which appends it
//! to the context, drives the requested tool calls through the registry,
//! records every executed call, and decides whether the run goes on.
//! `finish` closes the run; a run that exhausts its iteration bound
//! without resolving is reported as failed, not passed off as success.

use vstd::prelude::*;
use crate::context::{spec_add_message, Context};
use crate::errors::{spec_agent_error_message, AgentError};
use crate::jsonio::{json_parse, json_wf};
use crate::message::{opt_str_view, Message, MessageRole, MessageView, ToolCall, ToolCallView};
use crate::tool_registry::ToolRegistry;

verus! {

/// The policy knobs of a run.
#[derive(Clone, Copy, Debug, PartialEq, Eq, Structural)]
pub struct ExecutorConfig {
    pub max_iterations: usize,
    pub timeout_secs: u64,
    pub enable_tools: bool,
    pub auto_tool_execution: bool,
    pub stop_on_tool_error: bool,
}

impl Default for ExecutorConfig {
    fn default() -> (r: ExecutorConfig)
        ensures
            r.max_iterations == 10,
            r.timeout_secs == 300,
            r.enable_tools,
            r.auto_tool_execution,
            !r.stop_on_tool_error,
    {
        ExecutorConfig {
            max_iterations: 10,
            timeout_secs: 300,
            enable_tools: true,
            auto_tool_execution: true,
            stop_on_tool_error: false,
        }
    }
}

/// The record of one requested tool call.
#[derive(Debug)]
pub struct ToolCallInfo {
    pub id: String,
    pub name: String,
    pub arguments: String,
    pub result: Option<String>,
    pub success: bool,
}

/// The mathematical content of a `ToolCallInfo`.
pub ghost struct ToolCallInfoView {
    pub id: Seq<char>,
    pub name: Seq<char>,
    pub arguments: Seq<char>,
    pub result: Option<Seq<char>>,
    pub success: bool,
}

impl View for ToolCallInfo {
    type V = ToolCallInfoView;

    open spec fn view(&self) -> ToolCallInfoView {
        ToolCallInfoView {
            id: self.id@,
            name: self.name@,
            arguments: self.arguments@,
            result: opt_str_view(self.result),
            success: self.success,
        }
    }
}

impl DeepView for ToolCallInfo {
    type V = ToolCallInfoView;

    open spec fn deep_view(&self) -> ToolCallInfoView {
        self@
    }
}

impl Clone for ToolCallInfo {
    fn clone(&self) -> (r: ToolCallInfo)
        ensures
            r@ == self@,
    {
        ToolCallInfo {
            id: self.id.clone(),
            name: self.name.clone(),
            arguments: self.arguments.clone(),
            result: match &self.result {
                Some(s) => Some(s.clone()),
                None => None,
            },
            success: self.success,
        }
    }
}

/// What one run returns: the transcript, the executed calls, and how it
/// ended.
#[derive(Debug)]
pub struct ExecutionResult {
    pub messages: Vec<Message>,
    pub tool_calls: Vec<ToolCallInfo>,
    pub iterations: usize,
    pub success: bool,
    pub error: Option<String>,
}

/// The live state of a run between iterations.
#[derive(Debug)]
pub struct ExecutionState {
    pub iterations: usize,
    pub tool_calls: Vec<ToolCallInfo>,
    pub success: bool,
    pub error: Option<String>,
    pub done: bool,
}

pub use crate::stream::StreamEvent;

/// The tool-role message that reports a recorded call back to the model.
pub open spec fn tool_msg_of(rec: ToolCallInfoView) -> MessageView {
    MessageView {
        role: MessageRole::Tool,
        content: match rec.result {
            Some(c) => c,
            None => Seq::empty(),
        },
        name: None,
        tool_calls: None,
        tool_call_id: Some(rec.id),
    }
}

/// The context after the recorded calls' tool messages are appended in
/// order.
pub open spec fn transcript_after(
    base: Seq<MessageView>,
    max: nat,
    added: Seq<ToolCallInfoView>,
) -> Seq<MessageView>
    decreases added.len(),
{
    if added.len() == 0 {
        base
    } else {
        spec_add_message(
            transcript_after(base, max, added.drop_last()),
            max,
            tool_msg_of(added.last()),
        )
    }
}

/// Each record repeats the identifier, name and raw arguments of the
/// request at its position.
pub open spec fn records_match_calls(added: Seq<ToolCallInfoView>, calls: Seq<ToolCallView>) -> bool {
    &&& added.len() <= calls.len()
    &&& forall|i: int|
        0 <= i < added.len() ==> (#[trigger] added[i]).id == calls[i].id && added[i].name
            == calls[i].function.name && added[i].arguments == calls[i].function.arguments
}

/// Whether any recorded call succeeded.
pub open spec fn any_success(added: Seq<ToolCallInfoView>) -> bool {
    exists|i: int| 0 <= i < added.len() && (#[trigger] added[i]).success
}

/// The state machine around one run.
pub struct Executor {
    config: ExecutorConfig,
}

impl Executor {
    pub closed spec fn spec_config(&self) -> ExecutorConfig {
        self.config
    }

    pub fn new(config: ExecutorConfig) -> (r: Executor)
        ensures
            r.spec_config() == config,
    {
        Executor { config }
    }

    pub fn config(&self) -> (r: &ExecutorConfig)
        ensures
            *r == self.spec_config(),
    {
        &self.config
    }

    /// A fresh run: no iterations yet, nothing recorded, not finished.
    pub fn begin(&self) -> (r: ExecutionState)
        ensures
            r.iterations == 0,
            r.tool_calls@.len() == 0,
            r.success,
            r.error is None,
            !r.done,
    {
        ExecutionState {
            iterations: 0,
            tool_calls: Vec::new(),
            success: true,
            error: None,
            done: false,
        }
    }

    /// Whether the driver should request another provider turn.
    pub fn should_continue(&self, state: &ExecutionState) -> (r: bool)
        ensures
            r == (!state.done && state.iterations < self.spec_config().max_iterations),
    {
        !state.done && state.iterations < self.config.max_iterations
    }

    /// Parses the raw arguments, runs the capability through the registry,
    /// and reduces its outcome to text: malformed arguments fail with
    /// `InvalidToolArguments`, an unregistered name with `ToolNotFound`.
    fn execute_tool(&self, tool_call: &ToolCall, registry: &ToolRegistry) -> (r: Result<
        String,
        AgentError,
    >)
        requires
            registry.wf(),
        ensures
            !json_wf(tool_call.function.arguments@) ==> (r matches Err(e) && e matches
            AgentError::InvalidToolArguments(_)),
            json_wf(tool_call.function.arguments@) && !registry@.contains_key(
                tool_call.function.name@,
            ) ==> (r matches Err(e) && (e matches AgentError::ToolNotFound(s) && s@
                == tool_call.function.name@)),
    {
        match json_parse(tool_call.function.arguments.as_str()) {
            Err(e) => Err(AgentError::InvalidToolArguments(e)),
            Ok(arguments) => {
                match registry.execute(tool_call.function.name.as_str(), arguments) {
                    Ok(outcome) => {
                        if outcome.success {
                            Ok(outcome.output)
                        } else {
                            match outcome.error {
                                Some(text) => Err(AgentError::ToolExecution(text)),
                                None => Err(
                                    AgentError::ToolExecution(String::from_str("Unknown error")),
                                ),
                            }
                        }
                    },
                    Err(e) => Err(e),
                }
            },
        }
    }

    /// One iteration of the state machine, fed with the provider's
    /// returned message.
    ///
    /// The message joins the context. A message without tool calls ends
    /// the run. Otherwise, with auto-execution off the requests are only
    /// recorded; with it on each is executed in order: a success appends
    /// its output as a tool message, a failure either ends the run as
    /// failed (`stop_on_tool_error`) or appends a visible `Error:` tool
    /// message. The run goes on only if auto-execution is on and some call
    /// succeeded.
    pub fn process_response(
        &self,
        context: &mut Context,
        registry: &ToolRegistry,
        state: &mut ExecutionState,
        message: Message,
    )
        requires
            old(context).wf(),
            registry.wf(),
            !old(state).done,
            old(state).iterations < self.spec_config().max_iterations,
        ensures
            final(state).iterations == old(state).iterations + 1,
            final(context).wf(),
            final(context).id == old(context).id,
            final(context).max_messages == old(context).max_messages,
            final(context).metadata.created_at == old(context).metadata.created_at,
            final(context).metadata.updated_at >= old(context).metadata.updated_at,
            final(state).tool_calls.deep_view().len() >= old(state).tool_calls.deep_view().len(),
            final(state).tool_calls.deep_view().take(old(state).tool_calls.deep_view().len() as int)
                == old(state).tool_calls.deep_view(),
            (message@.tool_calls is None || message@.tool_calls == Some(Seq::<ToolCallView>::empty()))
                ==> {
                &&& final(state).done
                &&& final(state).success == old(state).success
                &&& opt_str_view(final(state).error) == opt_str_view(old(state).error)
                &&& final(state).tool_calls.deep_view() == old(state).tool_calls.deep_view()
                &&& final(context).msgs() == spec_add_message(
                    old(context).msgs(),
                    old(context).max_messages as nat,
                    message@,
                )
            },
            (message@.tool_calls matches Some(calls) && calls.len() > 0) ==> {
                let calls = message@.tool_calls->Some_0;
                let added = final(state).tool_calls.deep_view().skip(
                    old(state).tool_calls.deep_view().len() as int,
                );
                let base = spec_add_message(
                    old(context).msgs(),
                    old(context).max_messages as nat,
                    message@,
                );
                &&& records_match_calls(added, calls)
                &&& (!self.spec_config().auto_tool_execution ==> {
                    &&& added.len() == calls.len()
                    &&& forall|i: int|
                        0 <= i < added.len() ==> !(#[trigger] added[i]).success && added[i].result
                            is None
                    &&& final(state).done
                    &&& final(state).success == old(state).success
                    &&& opt_str_view(final(state).error) == opt_str_view(old(state).error)
                    &&& final(context).msgs() == base
                })
                &&& (self.spec_config().auto_tool_execution ==> {
                    &&& forall|i: int|
                        0 <= i < added.len() ==> (#[trigger] added[i]).result is Some
                    &&& final(context).msgs() == transcript_after(
                        base,
                        old(context).max_messages as nat,
                        added,
                    )
                    &&& ({
                        ||| {
                            &&& added.len() == calls.len()
                            &&& final(state).done == !any_success(added)
                            &&& final(state).success == old(state).success
                            &&& opt_str_view(final(state).error) == opt_str_view(old(state).error)
                        }
                        ||| {
                            &&& self.spec_config().stop_on_tool_error
                            &&& added.len() < calls.len()
                            &&& final(state).done
                            &&& !final(state).success
                            &&& final(state).error is Some
                            &&& forall|i: int|
                                0 <= i < added.len() ==> (#[trigger] added[i]).success
                        }
                    })
                })
            },
    {
        state.iterations += 1;
        let ghost old_ctx = context.msgs();
        let ghost max = context.max_messages as nat;
        let ghost old_recs = state.tool_calls.deep_view();
        let msg_copy = message.clone();
        context.add_message(msg_copy);
        let ghost base = context.msgs();
        match &message.tool_calls {
            None => {
                state.done = true;
            },
            Some(calls) => {
                if calls.len() == 0 {
                    proof {
                        assert(message@.tool_calls == Some(Seq::<ToolCallView>::empty()));
                        assert(calls.deep_view() =~= Seq::<ToolCallView>::empty());
                    }
                    state.done = true;
                } else if !self.config.auto_tool_execution {
                    let n = calls.len();
                    let mut i: usize = 0;
                    while i < n
                        invariant
                            n == calls.deep_view().len(),
                            i <= n,
                            state.iterations == old(state).iterations + 1,
                            state.success == old(state).success,
                            state.error == old(state).error,
                            state.done == old(state).done,
                            state.tool_calls.deep_view().len() == old_recs.len() + i,
                            state.tool_calls.deep_view().take(old_recs.len() as int) == old_recs,
                            forall|j: int|
                                0 <= j < i ==> {
                                    let rec = #[trigger] state.tool_calls.deep_view()[old_recs.len()
                                        + j];
                                    &&& rec.id == calls.deep_view()[j].id
                                    &&& rec.name == calls.deep_view()[j].function.name
                                    &&& rec.arguments == calls.deep_view()[j].function.arguments
                                    &&& !rec.success
                                    &&& rec.result is None
                                },
                        decreases n - i,
                    {
                        let call = &calls[i];
                        let rec = ToolCallInfo {
                            id: call.id.clone(),
                            name: call.function.name.clone(),
                            arguments: call.function.arguments.clone(),
                            result: None,
                            success: false,
                        };
                        let ghost prev = state.tool_calls.deep_view();
                        state.tool_calls.push(rec);
                        proof {
                            assert(state.tool_calls.deep_view() =~= prev.push(rec@));
                            assert(state.tool_calls.deep_view().take(old_recs.len() as int)
                                =~= old_recs);
                        }
                        i += 1;
                    }
                    state.done = true;
                    proof {
                        let added = state.tool_calls.deep_view().skip(old_recs.len() as int);
                        assert(added.len() == calls.deep_view().len());
                        assert forall|j: int| 0 <= j < added.len() implies (#[trigger] added[j])
                            == state.tool_calls.deep_view()[old_recs.len() + j] by {}
                        assert(records_match_calls(added, calls.deep_view()));
                    }
                } else {
                    let n = calls.len();
                    let mut any: bool = false;
                    let mut i: usize = 0;
                    while i < n && !state.done
                        invariant
                            n == calls.deep_view().len(),
                            n > 0,
                            i <= n,
                            registry.wf(),
                            state.iterations == old(state).iterations + 1,
                            context.wf(),
                            context.id == old(context).id,
                            context.max_messages == old(context).max_messages,
                            max == context.max_messages as nat,
                            context.metadata.created_at == old(context).metadata.created_at,
                            context.metadata.updated_at >= old(context).metadata.updated_at,
                            state.tool_calls.deep_view().len() >= old_recs.len(),
                            state.tool_calls.deep_view().take(old_recs.len() as int) == old_recs,
                            records_match_calls(
                                state.tool_calls.deep_view().skip(old_recs.len() as int),
                                calls.deep_view(),
                            ),
                            forall|j: int|
                                0 <= j < state.tool_calls.deep_view().skip(
                                    old_recs.len() as int,
                                ).len() ==> (#[trigger] state.tool_calls.deep_view().skip(
                                    old_recs.len() as int,
                                )[j]).result is Some,
                            context.msgs() == transcript_after(
                                base,
                                max,
                                state.tool_calls.deep_view().skip(old_recs.len() as int),
                            ),
                            any == any_success(
                                state.tool_calls.deep_view().skip(old_recs.len() as int),
                            ),
                            self.spec_config().stop_on_tool_error ==> forall|j: int|
                                0 <= j < state.tool_calls.deep_view().skip(
                                    old_recs.len() as int,
                                ).len() ==> (#[trigger] state.tool_calls.deep_view().skip(
                                    old_recs.len() as int,
                                )[j]).success,
                            !state.done ==> {
                                &&& state.tool_calls.deep_view().len() == old_recs.len() + i
                                &&& state.success == old(state).success
                                &&& opt_str_view(state.error) == opt_str_view(old(state).error)
                            },
                            state.done ==> {
                                &&& self.spec_config().stop_on_tool_error
                                &&& state.tool_calls.deep_view().skip(old_recs.len() as int).len()
                                    < calls.deep_view().len()
                                &&& !state.success
                                &&& state.error is Some
                                &&& forall|j: int|
                                    0 <= j < state.tool_calls.deep_view().skip(
                                        old_recs.len() as int,
                                    ).len() ==> (#[trigger] state.tool_calls.deep_view().skip(
                                        old_recs.len() as int,
                                    )[j]).success
                            },
                        decreases n - i,
                    {
                        let call = &calls[i];
                        let ghost added_before = state.tool_calls.deep_view().skip(
                            old_recs.len() as int,
                        );
                        match self.execute_tool(call, registry) {
                            Ok(output) => {
                                context.add_tool_message(output.as_str(), call.id.as_str());
                                let rec = ToolCallInfo {
                                    id: call.id.clone(),
                                    name: call.function.name.clone(),
                                    arguments: call.function.arguments.clone(),
                                    result: Some(output),
                                    success: true,
                                };
                                let ghost recv = rec@;
                                state.tool_calls.push(rec);
                                proof {
                                    let added = state.tool_calls.deep_view().skip(
                                        old_recs.len() as int,
                                    );
                                    assert(state.tool_calls.deep_view().take(old_recs.len() as int)
                                        =~= old_recs);
                                    assert(added =~= added_before.push(recv));
                                    assert(added.drop_last() =~= added_before);
                                    assert(tool_msg_of(recv) == MessageView {
                                        role: MessageRole::Tool,
                                        content: recv.result->Some_0,
                                        name: None,
                                        tool_calls: None,
                                        tool_call_id: Some(recv.id),
                                    });
                                    assert(context.msgs() == transcript_after(base, max, added));
                                    assert(any_success(added));
                                }
                                any = true;
                            },
                            Err(e) => {
                                if self.config.stop_on_tool_error {
                                    state.success = false;
                                    state.error = Some(e.message());
                                    state.done = true;
                                    proof {
                                        assert(state.tool_calls.deep_view().skip(
                                            old_recs.len() as int,
                                        ).len() == i);
                                        assert(i < n);
                                    }
                                } else {
                                    let prefix = String::from_str("Error: ");
                                    let emsg = e.message();
                                    let txt = prefix.concat(emsg.as_str());
                                    context.add_tool_message(txt.as_str(), call.id.as_str());
                                    let rec = ToolCallInfo {
                                        id: call.id.clone(),
                                        name: call.function.name.clone(),
                                        arguments: call.function.arguments.clone(),
                                        result: Some(txt),
                                        success: false,
                                    };
                                    let ghost recv = rec@;
                                    state.tool_calls.push(rec);
                                    proof {
                                        let added = state.tool_calls.deep_view().skip(
                                            old_recs.len() as int,
                                        );
                                        assert(state.tool_calls.deep_view().take(
                                            old_recs.len() as int,
                                        ) =~= old_recs);
                                        assert(added =~= added_before.push(recv));
                                        assert(added.drop_last() =~= added_before);
                                        assert(context.msgs() == transcript_after(
                                            base,
                                            max,
                                            added,
                                        ));
                                        if any_success(added) && !any {
                                            let w = choose|j: int|
                                                0 <= j < added.len() && (#[trigger] added[j]).success;
                                            assert(w < added_before.len());
                                        }
                                    }
                                }
                            },
                        }
                        i += 1;
                    }
                    if !state.done {
                        if !any {
                            state.done = true;
                        }
                    }
                    proof {
                        let added = state.tool_calls.deep_view().skip(old_recs.len() as int);
                        if state.error == old(state).error {
                        }
                    }
                }
            },
        }
    }

    /// Closes a run. A run its own logic finished reports its own verdict;
    /// one that ran out of iterations is reported failed, with the
    /// iteration-bound error text.
    pub fn finish(&self, context: &Context, state: ExecutionState) -> (r: ExecutionResult)
        ensures
            r.messages.deep_view() == context.msgs(),
            r.tool_calls == state.tool_calls,
            r.iterations == state.iterations,
            state.done ==> r.success == state.success && opt_str_view(r.error) == opt_str_view(
                state.error,
            ),
            !state.done ==> !r.success && (r.error matches Some(s) && s@ == spec_agent_error_message(
                AgentError::MaxIterationsExceeded,
            )),
    {
        let messages = context.get_messages();
        if state.done {
            ExecutionResult {
                messages,
                tool_calls: state.tool_calls,
                iterations: state.iterations,
                success: state.success,
                error: state.error,
            }
        } else {
            let e = AgentError::MaxIterationsExceeded;
            ExecutionResult {
                messages,
                tool_calls: state.tool_calls,
                iterations: state.iterations,
                success: false,
                error: Some(e.message()),
            }
        }
    }
}

} // verus!
