//! Conversation messages: the unit the context store and the executor work on.

use vstd::prelude::*;
use crate::text::{eq_ignore_case, str_eq_ignore_case};

verus! {

/// The speaker of a message.
#[derive(Clone, Copy, Debug, PartialEq, Eq, Structural)]
pub enum MessageRole {
    System,
    User,
    Assistant,
    Tool,
}

/// The role a textual role name denotes; unknown names default to `User`.
pub open spec fn spec_role_of(s: Seq<char>) -> MessageRole {
    if eq_ignore_case(s, "system"@) {
        MessageRole::System
    } else if eq_ignore_case(s, "user"@) {
        MessageRole::User
    } else if eq_ignore_case(s, "assistant"@) {
        MessageRole::Assistant
    } else if eq_ignore_case(s, "tool"@) {
        MessageRole::Tool
    } else {
        MessageRole::User
    }
}

impl From<&str> for MessageRole {
    fn from(s: &str) -> (r: MessageRole)
        ensures
            r == spec_role_of(s@),
    {
        if str_eq_ignore_case(s, "system") {
            MessageRole::System
        } else if str_eq_ignore_case(s, "user") {
            MessageRole::User
        } else if str_eq_ignore_case(s, "assistant") {
            MessageRole::Assistant
        } else if str_eq_ignore_case(s, "tool") {
            MessageRole::Tool
        } else {
            MessageRole::User
        }
    }
}

impl vstd::std_specs::convert::FromSpecImpl<&str> for MessageRole {
    open spec fn obeys_from_spec() -> bool {
        true
    }

    open spec fn from_spec(s: &str) -> MessageRole {
        spec_role_of(s@)
    }
}

impl MessageRole {
    /// The textual name of the role, as the provider protocol writes it.
    pub fn as_str(&self) -> (r: &'static str)
        ensures
            *self == MessageRole::System ==> r@ == "system"@,
            *self == MessageRole::User ==> r@ == "user"@,
            *self == MessageRole::Assistant ==> r@ == "assistant"@,
            *self == MessageRole::Tool ==> r@ == "tool"@,
    {
        match self {
            MessageRole::System => "system",
            MessageRole::User => "user",
            MessageRole::Assistant => "assistant",
            MessageRole::Tool => "tool",
        }
    }
}

/// A single function invocation requested by the model.
#[derive(Debug)]
pub struct FunctionCall {
    pub name: String,
    pub arguments: String,
}

/// The mathematical content of a `FunctionCall`.
pub ghost struct FunctionCallView {
    pub name: Seq<char>,
    pub arguments: Seq<char>,
}

impl View for FunctionCall {
    type V = FunctionCallView;

    open spec fn view(&self) -> FunctionCallView {
        FunctionCallView { name: self.name@, arguments: self.arguments@ }
    }
}

impl Clone for FunctionCall {
    fn clone(&self) -> (r: FunctionCall)
        ensures
            r@ == self@,
    {
        FunctionCall { name: self.name.clone(), arguments: self.arguments.clone() }
    }
}

/// A tool-call request: an identifier plus the function to invoke.
#[derive(Debug)]
pub struct ToolCall {
    pub id: String,
    pub tool_type: String,
    pub function: FunctionCall,
}

/// The mathematical content of a `ToolCall`.
pub ghost struct ToolCallView {
    pub id: Seq<char>,
    pub tool_type: Seq<char>,
    pub function: FunctionCallView,
}

impl View for ToolCall {
    type V = ToolCallView;

    open spec fn view(&self) -> ToolCallView {
        ToolCallView { id: self.id@, tool_type: self.tool_type@, function: self.function@ }
    }
}

impl DeepView for ToolCall {
    type V = ToolCallView;

    open spec fn deep_view(&self) -> ToolCallView {
        self@
    }
}

impl Clone for ToolCall {
    fn clone(&self) -> (r: ToolCall)
        ensures
            r@ == self@,
    {
        ToolCall {
            id: self.id.clone(),
            tool_type: self.tool_type.clone(),
            function: self.function.clone(),
        }
    }
}

/// The textual result of one tool call, keyed by the request it answers.
#[derive(Debug)]
pub struct ToolResult {
    pub tool_call_id: String,
    pub content: String,
}

impl Clone for ToolResult {
    fn clone(&self) -> (r: ToolResult)
        ensures
            r.tool_call_id@ == self.tool_call_id@,
            r.content@ == self.content@,
    {
        ToolResult { tool_call_id: self.tool_call_id.clone(), content: self.content.clone() }
    }
}

/// One message of a conversation.
///
/// A tool-role message always carries the `tool_call_id` of the request it
/// answers; the constructors below establish that invariant.
#[derive(Debug)]
pub struct Message {
    pub role: MessageRole,
    pub content: String,
    pub name: Option<String>,
    pub tool_calls: Option<Vec<ToolCall>>,
    pub tool_call_id: Option<String>,
}

/// The mathematical content of a `Message`.
pub ghost struct MessageView {
    pub role: MessageRole,
    pub content: Seq<char>,
    pub name: Option<Seq<char>>,
    pub tool_calls: Option<Seq<ToolCallView>>,
    pub tool_call_id: Option<Seq<char>>,
}

/// The view of an optional string.
pub open spec fn opt_str_view(o: Option<String>) -> Option<Seq<char>> {
    match o {
        Some(s) => Some(s@),
        None => None,
    }
}

impl View for Message {
    type V = MessageView;

    open spec fn view(&self) -> MessageView {
        MessageView {
            role: self.role,
            content: self.content@,
            name: opt_str_view(self.name),
            tool_calls: match self.tool_calls {
                Some(tc) => Some(tc.deep_view()),
                None => None,
            },
            tool_call_id: opt_str_view(self.tool_call_id),
        }
    }
}

impl DeepView for Message {
    type V = MessageView;

    open spec fn deep_view(&self) -> MessageView {
        self@
    }
}

impl Clone for Message {
    fn clone(&self) -> (r: Message)
        ensures
            r@ == self@,
    {
        let tool_calls: Option<Vec<ToolCall>> = match &self.tool_calls {
            Some(v) => {
                let mut nv: Vec<ToolCall> = Vec::new();
                let n = v.len();
                let mut i: usize = 0;
                while i < n
                    invariant
                        n == v@.len(),
                        i <= n,
                        nv@.len() == i,
                        forall|j: int| 0 <= j < i ==> nv@[j]@ == v@[j]@,
                    decreases n - i,
                {
                    nv.push(v[i].clone());
                    i += 1;
                }
                proof {
                    assert forall|j: int| 0 <= j < n implies nv.deep_view()[j] == v.deep_view()[j]
                        by {
                        assert(nv@[j]@ == v@[j]@);
                    }
                    assert(nv.deep_view() =~= v.deep_view());
                }
                Some(nv)
            },
            None => None,
        };
        let r = Message {
            role: self.role,
            content: self.content.clone(),
            name: match &self.name {
                Some(s) => Some(s.clone()),
                None => None,
            },
            tool_calls,
            tool_call_id: match &self.tool_call_id {
                Some(s) => Some(s.clone()),
                None => None,
            },
        };
        r
    }
}

/// A tool-role message carries the identifier of the call it answers.
pub open spec fn message_wf(m: Message) -> bool {
    m.role == MessageRole::Tool ==> m.tool_call_id is Some
}

impl Message {
    pub fn system(content: &str) -> (r: Message)
        ensures
            r.role == MessageRole::System,
            r.content@ == content@,
            r.name is None,
            r.tool_calls is None,
            r.tool_call_id is None,
            message_wf(r),
    {
        Message {
            role: MessageRole::System,
            content: content.to_owned(),
            name: None,
            tool_calls: None,
            tool_call_id: None,
        }
    }

    pub fn user(content: &str) -> (r: Message)
        ensures
            r.role == MessageRole::User,
            r.content@ == content@,
            r.name is None,
            r.tool_calls is None,
            r.tool_call_id is None,
            message_wf(r),
    {
        Message {
            role: MessageRole::User,
            content: content.to_owned(),
            name: None,
            tool_calls: None,
            tool_call_id: None,
        }
    }

    pub fn assistant(content: &str) -> (r: Message)
        ensures
            r.role == MessageRole::Assistant,
            r.content@ == content@,
            r.name is None,
            r.tool_calls is None,
            r.tool_call_id is None,
            message_wf(r),
    {
        Message {
            role: MessageRole::Assistant,
            content: content.to_owned(),
            name: None,
            tool_calls: None,
            tool_call_id: None,
        }
    }

    pub fn tool(content: &str, tool_call_id: &str) -> (r: Message)
        ensures
            r.role == MessageRole::Tool,
            r.content@ == content@,
            r.name is None,
            r.tool_calls is None,
            r.tool_call_id matches Some(id) && id@ == tool_call_id@,
            message_wf(r),
    {
        Message {
            role: MessageRole::Tool,
            content: content.to_owned(),
            name: None,
            tool_calls: None,
            tool_call_id: Some(tool_call_id.to_owned()),
        }
    }

    pub fn with_tool_calls(self, tool_calls: Vec<ToolCall>) -> (r: Message)
        ensures
            r.role == self.role,
            r.content == self.content,
            r.name == self.name,
            r.tool_calls matches Some(tc) && tc == tool_calls,
            r.tool_call_id == self.tool_call_id,
    {
        Message { tool_calls: Some(tool_calls), ..self }
    }

    pub fn with_name(self, name: &str) -> (r: Message)
        ensures
            r.role == self.role,
            r.content == self.content,
            r.name matches Some(n) && n@ == name@,
            r.tool_calls == self.tool_calls,
            r.tool_call_id == self.tool_call_id,
    {
        Message { name: Some(name.to_owned()), ..self }
    }

    /// Whether this message carries at least one tool-call request.
    pub fn has_tool_calls(&self) -> (r: bool)
        ensures
            r == (self.tool_calls matches Some(tc) && tc@.len() > 0),
    {
        match &self.tool_calls {
            Some(tc) => tc.len() > 0,
            None => false,
        }
    }
}

} // verus!
