//! The bounded per-conversation message store.
//!
//! A context owns an ordered message sequence and enforces its size bound
//! on every append. Eviction policy: the store evicts from the front, but
//! keeps a leading system message in place by evicting the second-oldest
//! message instead, so a conversation never loses its instructions.
//! Metadata timestamps never move backwards, whatever the clock returns.

use vstd::prelude::*;
use crate::clock::now_timestamp_millis;
use crate::errors::{AgentError, AgentResult};
use crate::message::{Message, MessageRole, MessageView};
use crate::strmap::StringMap;
use crate::text::{clone_strings, str_eq};

verus! {

/// How many of the messages are system messages.
pub open spec fn count_system(msgs: Seq<MessageView>) -> int
    decreases msgs.len(),
{
    if msgs.len() == 0 {
        0
    } else {
        count_system(msgs.drop_last()) + if msgs.last().role == MessageRole::System {
            1int
        } else {
            0int
        }
    }
}

/// One eviction step: the front message leaves, except that a leading
/// system message is kept and the message after it leaves instead.
pub open spec fn spec_evict_one(msgs: Seq<MessageView>) -> Seq<MessageView> {
    if msgs.len() > 1 && msgs[0].role == MessageRole::System {
        msgs.remove(1)
    } else {
        msgs.drop_first()
    }
}

/// Evicts until the sequence fits the bound.
pub open spec fn spec_trim(msgs: Seq<MessageView>, max: nat) -> Seq<MessageView>
    decreases msgs.len(),
{
    if msgs.len() <= max {
        msgs
    } else {
        spec_trim(spec_evict_one(msgs), max)
    }
}

/// What one append leaves in the store: the message at the back, then the
/// bound enforced.
pub open spec fn spec_add_message(msgs: Seq<MessageView>, max: nat, m: MessageView) -> Seq<
    MessageView,
> {
    spec_trim(msgs.push(m), max)
}

/// What a whole sequence of appends leaves in the store.
pub open spec fn spec_add_all(msgs: Seq<MessageView>, max: nat, adds: Seq<MessageView>) -> Seq<
    MessageView,
>
    decreases adds.len(),
{
    if adds.len() == 0 {
        msgs
    } else {
        spec_add_all(spec_add_message(msgs, max, adds[0]), max, adds.drop_first())
    }
}

pub proof fn lemma_spec_trim_len(msgs: Seq<MessageView>, max: nat)
    ensures
        spec_trim(msgs, max).len() == if msgs.len() <= max {
            msgs.len() as int
        } else {
            max as int
        },
    decreases msgs.len(),
{
    if msgs.len() > max {
        lemma_spec_trim_len(spec_evict_one(msgs), max);
    }
}

pub proof fn lemma_spec_add_len(msgs: Seq<MessageView>, max: nat, m: MessageView)
    requires
        msgs.len() <= max,
    ensures
        spec_add_message(msgs, max, m).len() == if msgs.len() + 1 <= max {
            (msgs.len() + 1) as int
        } else {
            max as int
        },
{
    lemma_spec_trim_len(msgs.push(m), max);
}

/// Appending any number of messages to a context within its bound fills it
/// up to the bound and no further.
pub proof fn lemma_add_all_len(msgs: Seq<MessageView>, max: nat, adds: Seq<MessageView>)
    requires
        msgs.len() <= max,
    ensures
        spec_add_all(msgs, max, adds).len() == if msgs.len() + adds.len() <= max {
            (msgs.len() + adds.len()) as int
        } else {
            max as int
        },
    decreases adds.len(),
{
    if adds.len() > 0 {
        lemma_spec_add_len(msgs, max, adds[0]);
        lemma_add_all_len(spec_add_message(msgs, max, adds[0]), max, adds.drop_first());
    }
}

/// Appending N messages to a fresh context, N within the bound, leaves
/// exactly N messages.
pub proof fn lemma_fresh_append_within_bound(max: nat, adds: Seq<MessageView>)
    requires
        adds.len() <= max,
    ensures
        spec_add_all(Seq::empty(), max, adds).len() == adds.len(),
{
    lemma_add_all_len(Seq::empty(), max, adds);
}

/// Appending N messages to a fresh context, N beyond the bound, leaves
/// exactly the bound: the trim invariant holds for any N.
pub proof fn lemma_fresh_append_beyond_bound(max: nat, adds: Seq<MessageView>)
    requires
        adds.len() > max,
    ensures
        spec_add_all(Seq::empty(), max, adds).len() == max,
{
    lemma_add_all_len(Seq::empty(), max, adds);
}

proof fn lemma_count_system_remove(msgs: Seq<MessageView>, i: int)
    requires
        0 <= i < msgs.len(),
    ensures
        count_system(msgs.remove(i)) == count_system(msgs) - (if msgs[i].role
            == MessageRole::System {
            1int
        } else {
            0int
        }),
    decreases msgs.len(),
{
    if i == msgs.len() - 1 {
        assert(msgs.remove(i) =~= msgs.drop_last());
    } else {
        assert(msgs.remove(i).drop_last() =~= msgs.drop_last().remove(i));
        assert(msgs.remove(i).last() == msgs.last());
        lemma_count_system_remove(msgs.drop_last(), i);
    }
}

proof fn lemma_count_system_index(msgs: Seq<MessageView>, i: int)
    requires
        0 <= i < msgs.len(),
        msgs[i].role == MessageRole::System,
    ensures
        count_system(msgs) >= 1,
    decreases msgs.len(),
{
    if i == msgs.len() - 1 {
        lemma_count_system_nonneg(msgs.drop_last());
    } else {
        lemma_count_system_index(msgs.drop_last(), i);
    }
}

proof fn lemma_count_system_nonneg(msgs: Seq<MessageView>)
    ensures
        count_system(msgs) >= 0,
    decreases msgs.len(),
{
    if msgs.len() > 0 {
        lemma_count_system_nonneg(msgs.drop_last());
    }
}

proof fn lemma_trim_keeps_lone_system(msgs: Seq<MessageView>, max: nat)
    requires
        max >= 1,
        msgs.len() >= 1,
        msgs[0].role == MessageRole::System,
        count_system(msgs) == 1,
    ensures
        spec_trim(msgs, max).len() >= 1,
        spec_trim(msgs, max)[0] == msgs[0],
        count_system(spec_trim(msgs, max)) == 1,
    decreases msgs.len(),
{
    if msgs.len() > max {
        assert(msgs.len() >= 2);
        let evicted = spec_evict_one(msgs);
        assert(evicted == msgs.remove(1));
        lemma_count_system_remove(msgs, 1);
        if msgs[1].role == MessageRole::System {
            lemma_count_system_two(msgs, 0, 1);
        }
        assert(count_system(evicted) == 1);
        assert(evicted[0] == msgs[0]);
        lemma_trim_keeps_lone_system(evicted, max);
    }
}

proof fn lemma_count_system_two(msgs: Seq<MessageView>, i: int, j: int)
    requires
        0 <= i < j < msgs.len(),
        msgs[i].role == MessageRole::System,
        msgs[j].role == MessageRole::System,
    ensures
        count_system(msgs) >= 2,
{
    lemma_count_system_remove(msgs, j);
    assert(msgs.remove(j)[i] == msgs[i]);
    lemma_count_system_index(msgs.remove(j), i);
}

proof fn lemma_add_keeps_lone_system(msgs: Seq<MessageView>, max: nat, m: MessageView)
    requires
        max >= 1,
        msgs.len() >= 1,
        msgs[0].role == MessageRole::System,
        count_system(msgs) == 1,
        m.role != MessageRole::System,
    ensures
        spec_add_message(msgs, max, m).len() >= 1,
        spec_add_message(msgs, max, m)[0] == msgs[0],
        count_system(spec_add_message(msgs, max, m)) == 1,
{
    let pushed = msgs.push(m);
    assert(pushed.drop_last() =~= msgs);
    assert(count_system(pushed) == 1);
    assert(pushed[0] == msgs[0]);
    lemma_trim_keeps_lone_system(pushed, max);
}

/// System-message retention: a context that begins with its only system
/// message keeps it, alone and at the front, through any sequence of
/// non-system appends.
pub proof fn lemma_system_message_retention(
    msgs: Seq<MessageView>,
    max: nat,
    adds: Seq<MessageView>,
)
    requires
        max >= 1,
        msgs.len() >= 1,
        msgs[0].role == MessageRole::System,
        count_system(msgs) == 1,
        forall|i: int| 0 <= i < adds.len() ==> adds[i].role != MessageRole::System,
    ensures
        spec_add_all(msgs, max, adds).len() >= 1,
        spec_add_all(msgs, max, adds)[0] == msgs[0],
        count_system(spec_add_all(msgs, max, adds)) == 1,
    decreases adds.len(),
{
    if adds.len() > 0 {
        lemma_add_keeps_lone_system(msgs, max, adds[0]);
        lemma_system_message_retention(spec_add_message(msgs, max, adds[0]), max, adds.drop_first());
    }
}

/// The token estimate of a history: a quarter of each message's character
/// count, summed.
pub open spec fn sum_token_estimate(msgs: Seq<MessageView>) -> int
    decreases msgs.len(),
{
    if msgs.len() == 0 {
        0
    } else {
        sum_token_estimate(msgs.drop_last()) + msgs.last().content.len() / 4
    }
}

/// A nonnegative amount, capped at what a `usize` can carry.
pub open spec fn spec_min_usize(n: int) -> int {
    if n <= usize::MAX {
        n
    } else {
        usize::MAX as int
    }
}

proof fn lemma_sum_token_nonneg(msgs: Seq<MessageView>)
    ensures
        sum_token_estimate(msgs) >= 0,
    decreases msgs.len(),
{
    if msgs.len() > 0 {
        lemma_sum_token_nonneg(msgs.drop_last());
    }
}

/// Metadata of a context: timestamps, ownership and tags.
#[derive(Debug)]
pub struct ContextMetadata {
    pub created_at: i64,
    pub updated_at: i64,
    pub session_id: Option<String>,
    pub user_id: Option<String>,
    pub tags: Vec<String>,
}

impl Clone for ContextMetadata {
    fn clone(&self) -> (r: ContextMetadata)
        ensures
            r.created_at == self.created_at,
            r.updated_at == self.updated_at,
            crate::message::opt_str_view(r.session_id) == crate::message::opt_str_view(
                self.session_id,
            ),
            crate::message::opt_str_view(r.user_id) == crate::message::opt_str_view(self.user_id),
            r.tags.deep_view() == self.tags.deep_view(),
    {
        let tags = clone_strings(&self.tags);
        ContextMetadata {
            created_at: self.created_at,
            updated_at: self.updated_at,
            session_id: match &self.session_id {
                Some(s) => Some(s.clone()),
                None => None,
            },
            user_id: match &self.user_id {
                Some(s) => Some(s.clone()),
                None => None,
            },
            tags,
        }
    }
}

impl ContextMetadata {
    fn now() -> (r: ContextMetadata)
        ensures
            r.created_at == r.updated_at,
            r.session_id is None,
            r.user_id is None,
            r.tags@.len() == 0,
    {
        let now = now_timestamp_millis();
        ContextMetadata {
            created_at: now,
            updated_at: now,
            session_id: None,
            user_id: None,
            tags: Vec::new(),
        }
    }
}

/// A bounded, ordered per-conversation message history.
#[derive(Debug)]
pub struct Context {
    pub id: String,
    pub messages: Vec<Message>,
    pub max_messages: usize,
    pub metadata: ContextMetadata,
}

impl Clone for Context {
    fn clone(&self) -> (r: Context)
        ensures
            r.id@ == self.id@,
            r.messages.deep_view() == self.messages.deep_view(),
            r.max_messages == self.max_messages,
            r.metadata.created_at == self.metadata.created_at,
            r.metadata.updated_at == self.metadata.updated_at,
            crate::message::opt_str_view(r.metadata.session_id) == crate::message::opt_str_view(
                self.metadata.session_id,
            ),
            crate::message::opt_str_view(r.metadata.user_id) == crate::message::opt_str_view(
                self.metadata.user_id,
            ),
            r.metadata.tags.deep_view() == self.metadata.tags.deep_view(),
    {
        Context {
            id: self.id.clone(),
            messages: clone_messages(&self.messages),
            max_messages: self.max_messages,
            metadata: self.metadata.clone(),
        }
    }
}

fn clone_messages(v: &Vec<Message>) -> (r: Vec<Message>)
    ensures
        r.deep_view() == v.deep_view(),
        r@.len() == v@.len(),
{
    let mut r: Vec<Message> = Vec::new();
    let n = v.len();
    let mut i: usize = 0;
    while i < n
        invariant
            n == v@.len(),
            i <= n,
            r@.len() == i,
            forall|j: int| 0 <= j < i ==> r@[j]@ == v@[j]@,
        decreases n - i,
    {
        r.push(v[i].clone());
        i += 1;
    }
    proof {
        assert forall|j: int| 0 <= j < n implies r.deep_view()[j] == v.deep_view()[j] by {
            assert(r@[j]@ == v@[j]@);
        }
        assert(r.deep_view() =~= v.deep_view());
    }
    r
}

impl Context {
    /// The mathematical message history.
    pub open spec fn msgs(&self) -> Seq<MessageView> {
        self.messages.deep_view()
    }

    /// The size bound holds; every mutation re-establishes it.
    pub open spec fn wf(&self) -> bool {
        self.msgs().len() <= self.max_messages
    }

    pub fn new(id: &str) -> (r: Context)
        ensures
            r.id@ == id@,
            r.msgs() =~= Seq::<MessageView>::empty(),
            r.max_messages == 100,
            r.metadata.session_id is None,
            r.metadata.user_id is None,
            r.metadata.tags@.len() == 0,
            r.metadata.created_at == r.metadata.updated_at,
            r.wf(),
    {
        let r = Context {
            id: id.to_owned(),
            messages: Vec::new(),
            max_messages: 100,
            metadata: ContextMetadata::now(),
        };
        proof {
            assert(r.msgs() =~= Seq::<MessageView>::empty());
        }
        r
    }

    pub fn with_max_messages(self, max: usize) -> (r: Context)
        ensures
            r.id == self.id,
            r.messages == self.messages,
            r.max_messages == max,
            r.metadata == self.metadata,
    {
        Context { max_messages: max, ..self }
    }

    pub fn with_session_id(self, session_id: &str) -> (r: Context)
        ensures
            r.id == self.id,
            r.messages == self.messages,
            r.max_messages == self.max_messages,
            r.metadata.session_id matches Some(s) && s@ == session_id@,
            r.metadata.user_id == self.metadata.user_id,
            r.metadata.created_at == self.metadata.created_at,
            r.metadata.updated_at == self.metadata.updated_at,
            r.metadata.tags == self.metadata.tags,
    {
        Context {
            metadata: ContextMetadata {
                session_id: Some(session_id.to_owned()),
                ..self.metadata
            },
            ..self
        }
    }

    pub fn with_user_id(self, user_id: &str) -> (r: Context)
        ensures
            r.id == self.id,
            r.messages == self.messages,
            r.max_messages == self.max_messages,
            r.metadata.user_id matches Some(s) && s@ == user_id@,
            r.metadata.session_id == self.metadata.session_id,
            r.metadata.created_at == self.metadata.created_at,
            r.metadata.updated_at == self.metadata.updated_at,
            r.metadata.tags == self.metadata.tags,
    {
        Context {
            metadata: ContextMetadata { user_id: Some(user_id.to_owned()), ..self.metadata },
            ..self
        }
    }

    /// Bumps `updated_at`, never backwards.
    fn touch(&mut self)
        ensures
            final(self).id == old(self).id,
            final(self).messages == old(self).messages,
            final(self).max_messages == old(self).max_messages,
            final(self).metadata.created_at == old(self).metadata.created_at,
            final(self).metadata.session_id == old(self).metadata.session_id,
            final(self).metadata.user_id == old(self).metadata.user_id,
            final(self).metadata.tags == old(self).metadata.tags,
            final(self).metadata.updated_at >= old(self).metadata.updated_at,
    {
        let now = now_timestamp_millis();
        if now > self.metadata.updated_at {
            self.metadata.updated_at = now;
        }
    }

    /// Evicts from the front until the bound holds, keeping a leading
    /// system message in place.
    fn trim_messages(&mut self)
        ensures
            final(self).id == old(self).id,
            final(self).max_messages == old(self).max_messages,
            final(self).metadata == old(self).metadata,
            final(self).msgs() == spec_trim(old(self).msgs(), old(self).max_messages as nat),
            final(self).wf(),
    {
        let ghost orig = self.msgs();
        let ghost max = self.max_messages as nat;
        while self.messages.len() > self.max_messages
            invariant
                self.id == old(self).id,
                self.max_messages == old(self).max_messages,
                self.metadata == old(self).metadata,
                spec_trim(orig, max) == spec_trim(self.msgs(), max),
                max == self.max_messages as nat,
            decreases self.messages.len(),
        {
            let ghost before = self.msgs();
            let front_is_system = self.messages.len() > 1 && matches!(
                self.messages[0].role,
                MessageRole::System
            );
            if front_is_system {
                self.messages.remove(1);
                proof {
                    assert(self.msgs() =~= before.remove(1));
                    assert(self.msgs() == spec_evict_one(before));
                }
            } else {
                self.messages.remove(0);
                proof {
                    assert(self.msgs() =~= before.drop_first());
                    assert(self.msgs() == spec_evict_one(before));
                }
            }
        }
        proof {
            assert(spec_trim(self.msgs(), max) == self.msgs());
        }
    }

    /// Appends a message, then enforces the bound; `updated_at` does not
    /// move backwards.
    pub fn add_message(&mut self, message: Message)
        requires
            old(self).wf(),
        ensures
            final(self).wf(),
            final(self).msgs() == spec_add_message(
                old(self).msgs(),
                old(self).max_messages as nat,
                message@,
            ),
            final(self).id == old(self).id,
            final(self).max_messages == old(self).max_messages,
            final(self).metadata.created_at == old(self).metadata.created_at,
            final(self).metadata.session_id == old(self).metadata.session_id,
            final(self).metadata.user_id == old(self).metadata.user_id,
            final(self).metadata.tags == old(self).metadata.tags,
            final(self).metadata.updated_at >= old(self).metadata.updated_at,
    {
        let ghost before = self.msgs();
        self.messages.push(message);
        proof {
            assert(self.msgs() =~= before.push(message@));
        }
        self.trim_messages();
        self.touch();
    }

    pub fn add_system_message(&mut self, content: &str)
        requires
            old(self).wf(),
        ensures
            final(self).wf(),
            final(self).msgs() == spec_add_message(
                old(self).msgs(),
                old(self).max_messages as nat,
                MessageView {
                    role: MessageRole::System,
                    content: content@,
                    name: None,
                    tool_calls: None,
                    tool_call_id: None,
                },
            ),
            final(self).id == old(self).id,
            final(self).max_messages == old(self).max_messages,
            final(self).metadata.created_at == old(self).metadata.created_at,
            final(self).metadata.updated_at >= old(self).metadata.updated_at,
    {
        self.add_message(Message::system(content));
    }

    pub fn add_user_message(&mut self, content: &str)
        requires
            old(self).wf(),
        ensures
            final(self).wf(),
            final(self).msgs() == spec_add_message(
                old(self).msgs(),
                old(self).max_messages as nat,
                MessageView {
                    role: MessageRole::User,
                    content: content@,
                    name: None,
                    tool_calls: None,
                    tool_call_id: None,
                },
            ),
            final(self).id == old(self).id,
            final(self).max_messages == old(self).max_messages,
            final(self).metadata.created_at == old(self).metadata.created_at,
            final(self).metadata.updated_at >= old(self).metadata.updated_at,
    {
        self.add_message(Message::user(content));
    }

    pub fn add_assistant_message(&mut self, content: &str)
        requires
            old(self).wf(),
        ensures
            final(self).wf(),
            final(self).msgs() == spec_add_message(
                old(self).msgs(),
                old(self).max_messages as nat,
                MessageView {
                    role: MessageRole::Assistant,
                    content: content@,
                    name: None,
                    tool_calls: None,
                    tool_call_id: None,
                },
            ),
            final(self).id == old(self).id,
            final(self).max_messages == old(self).max_messages,
            final(self).metadata.created_at == old(self).metadata.created_at,
            final(self).metadata.updated_at >= old(self).metadata.updated_at,
    {
        self.add_message(Message::assistant(content));
    }

    pub fn add_tool_message(&mut self, content: &str, tool_call_id: &str)
        requires
            old(self).wf(),
        ensures
            final(self).wf(),
            final(self).msgs() == spec_add_message(
                old(self).msgs(),
                old(self).max_messages as nat,
                MessageView {
                    role: MessageRole::Tool,
                    content: content@,
                    name: None,
                    tool_calls: None,
                    tool_call_id: Some(tool_call_id@),
                },
            ),
            final(self).id == old(self).id,
            final(self).max_messages == old(self).max_messages,
            final(self).metadata.created_at == old(self).metadata.created_at,
            final(self).metadata.updated_at >= old(self).metadata.updated_at,
    {
        self.add_message(Message::tool(content, tool_call_id));
    }

    /// A copy of the whole history, in conversation order.
    pub fn get_messages(&self) -> (r: Vec<Message>)
        ensures
            r.deep_view() == self.msgs(),
            r@.len() == self.msgs().len(),
    {
        clone_messages(&self.messages)
    }

    /// A copy of the last `n` messages, oldest of them first.
    pub fn get_last_n_messages(&self, n: usize) -> (r: Vec<Message>)
        ensures
            r.deep_view() == self.msgs().skip(
                if self.msgs().len() >= n {
                    self.msgs().len() - n
                } else {
                    0
                },
            ),
    {
        let len = self.messages.len();
        let start = if len >= n {
            len - n
        } else {
            0
        };
        let mut r: Vec<Message> = Vec::new();
        let mut i: usize = start;
        while i < len
            invariant
                len == self.msgs().len(),
                start <= i <= len,
                r@.len() == i - start,
                forall|j: int| 0 <= j < r@.len() ==> r@[j]@ == self.messages@[start + j]@,
            decreases len - i,
        {
            r.push(self.messages[i].clone());
            i += 1;
        }
        proof {
            assert forall|j: int| 0 <= j < r@.len() implies r.deep_view()[j] == self.msgs().skip(
                start as int,
            )[j] by {
                assert(r@[j]@ == self.messages@[start + j]@);
            }
            assert(r.deep_view() =~= self.msgs().skip(start as int));
        }
        r
    }

    /// Empties the history; the bound and metadata identity stay.
    pub fn clear(&mut self)
        ensures
            final(self).wf(),
            final(self).msgs() =~= Seq::<MessageView>::empty(),
            final(self).id == old(self).id,
            final(self).max_messages == old(self).max_messages,
            final(self).metadata.created_at == old(self).metadata.created_at,
            final(self).metadata.session_id == old(self).metadata.session_id,
            final(self).metadata.user_id == old(self).metadata.user_id,
            final(self).metadata.tags == old(self).metadata.tags,
            final(self).metadata.updated_at >= old(self).metadata.updated_at,
    {
        self.messages.clear();
        proof {
            assert(self.msgs() =~= Seq::<MessageView>::empty());
        }
        self.touch();
    }

    /// Empties the history and, when given, reopens it with a system
    /// message.
    pub fn reset(&mut self, system_message: Option<&str>)
        ensures
            final(self).wf(),
            final(self).id == old(self).id,
            final(self).max_messages == old(self).max_messages,
            match system_message {
                Some(content) => final(self).msgs() == spec_add_message(
                    Seq::empty(),
                    old(self).max_messages as nat,
                    MessageView {
                        role: MessageRole::System,
                        content: content@,
                        name: None,
                        tool_calls: None,
                        tool_call_id: None,
                    },
                ),
                None => final(self).msgs() =~= Seq::<MessageView>::empty(),
            },
    {
        self.clear();
        match system_message {
            Some(content) => {
                self.add_system_message(content);
            },
            None => {},
        }
    }

    /// How many messages the context holds.
    pub fn message_count(&self) -> (r: usize)
        ensures
            r == self.msgs().len(),
    {
        self.messages.len()
    }

    /// Roughly four characters per token, summed over the history.
    pub fn token_estimate(&self) -> (r: usize)
        ensures
            r == spec_min_usize(sum_token_estimate(self.msgs())),
    {
        let n = self.messages.len();
        let mut acc: usize = 0;
        let mut i: usize = 0;
        while i < n
            invariant
                n == self.msgs().len(),
                i <= n,
                acc == spec_min_usize(sum_token_estimate(self.msgs().take(i as int))),
            decreases n - i,
        {
            proof {
                assert(self.msgs().take(i + 1).drop_last() =~= self.msgs().take(i as int));
                lemma_sum_token_nonneg(self.msgs().take(i as int));
            }
            let t = self.messages[i].content.as_str().unicode_len() / 4;
            if acc > usize::MAX - t {
                acc = usize::MAX;
            } else {
                acc = acc + t;
            }
            i += 1;
        }
        proof {
            assert(self.msgs().take(n as int) =~= self.msgs());
        }
        acc
    }

    pub fn add_tag(&mut self, tag: &str)
        ensures
            final(self).id == old(self).id,
            final(self).messages == old(self).messages,
            final(self).max_messages == old(self).max_messages,
            final(self).metadata.created_at == old(self).metadata.created_at,
            final(self).metadata.session_id == old(self).metadata.session_id,
            final(self).metadata.user_id == old(self).metadata.user_id,
            (exists|i: int|
                0 <= i < old(self).metadata.tags@.len() && old(self).metadata.tags@[i]@ == tag@)
                ==> final(self).metadata.tags == old(self).metadata.tags,
            !(exists|i: int|
                0 <= i < old(self).metadata.tags@.len() && old(self).metadata.tags@[i]@ == tag@)
                ==> {
                &&& final(self).metadata.tags@.len() == old(self).metadata.tags@.len() + 1
                &&& final(self).metadata.tags@.last()@ == tag@
                &&& final(self).metadata.tags@.drop_last() == old(self).metadata.tags@
            },
    {
        if !self.has_tag(tag) {
            self.metadata.tags.push(tag.to_owned());
        }
    }

    pub fn remove_tag(&mut self, tag: &str)
        ensures
            final(self).id == old(self).id,
            final(self).messages == old(self).messages,
            final(self).max_messages == old(self).max_messages,
            final(self).metadata.created_at == old(self).metadata.created_at,
            final(self).metadata.session_id == old(self).metadata.session_id,
            final(self).metadata.user_id == old(self).metadata.user_id,
            final(self).metadata.tags.deep_view() == old(self).metadata.tags.deep_view().filter(
                |t: Seq<char>| t != tag@,
            ),
    {
        let n = self.metadata.tags.len();
        let mut kept: Vec<String> = Vec::new();
        proof {
            reveal(Seq::filter);
            assert(self.metadata.tags.deep_view().take(0).filter(|t: Seq<char>| t != tag@)
                =~= Seq::<Seq<char>>::empty());
        }
        let mut i: usize = 0;
        while i < n
            invariant
                n == self.metadata.tags@.len(),
                i <= n,
                kept.deep_view() =~= self.metadata.tags.deep_view().take(i as int).filter(
                    |t: Seq<char>| t != tag@,
                ),
            decreases n - i,
        {
            proof {
                reveal(Seq::filter);
                assert(self.metadata.tags.deep_view().take(i + 1).drop_last()
                    =~= self.metadata.tags.deep_view().take(i as int));
                assert(self.metadata.tags.deep_view().take(i + 1).last()
                    == self.metadata.tags@[i as int]@);
            }
            if !str_eq(self.metadata.tags[i].as_str(), tag) {
                let ghost prev = kept.deep_view();
                kept.push(self.metadata.tags[i].clone());
                proof {
                    assert(kept.deep_view() =~= prev.push(self.metadata.tags@[i as int]@));
                }
            }
            i += 1;
        }
        proof {
            assert(self.metadata.tags.deep_view().take(n as int)
                =~= self.metadata.tags.deep_view());
        }
        self.metadata.tags = kept;
    }

    pub fn has_tag(&self, tag: &str) -> (r: bool)
        ensures
            r == exists|i: int|
                0 <= i < self.metadata.tags@.len() && self.metadata.tags@[i]@ == tag@,
    {
        let n = self.metadata.tags.len();
        let mut i: usize = 0;
        while i < n
            invariant
                n == self.metadata.tags@.len(),
                i <= n,
                forall|j: int| 0 <= j < i ==> self.metadata.tags@[j]@ != tag@,
            decreases n - i,
        {
            if str_eq(self.metadata.tags[i].as_str(), tag) {
                return true;
            }
            i += 1;
        }
        false
    }
}

/// The store of every live conversation, keyed by the caller's identifier.
pub struct ContextManager {
    contexts: StringMap<Context>,
}

impl ContextManager {
    /// Every stored context satisfies its own invariant.
    pub closed spec fn wf(&self) -> bool {
        &&& self.contexts.wf()
        &&& forall|k: Seq<char>|
            self.contexts@.contains_key(k) ==> (#[trigger] self.contexts@[k]).wf()
    }

    pub closed spec fn view(&self) -> Map<Seq<char>, Context> {
        self.contexts@
    }

    pub fn new() -> (r: ContextManager)
        ensures
            r.wf(),
            r@ == Map::<Seq<char>, Context>::empty(),
    {
        ContextManager { contexts: StringMap::new() }
    }

    /// Opens a fresh, empty context under `id`, replacing any old one.
    pub fn create(&mut self, id: &str)
        requires
            old(self).wf(),
        ensures
            final(self).wf(),
            final(self)@.contains_key(id@),
            final(self)@ == old(self)@.insert(id@, final(self)@[id@]),
            final(self)@[id@].id@ == id@,
            final(self)@[id@].msgs() =~= Seq::<MessageView>::empty(),
            final(self)@[id@].max_messages == 100,
    {
        let fresh = Context::new(id);
        self.contexts.insert(id, fresh);
    }

    pub fn get(&self, id: &str) -> (r: Option<&Context>)
        requires
            self.wf(),
        ensures
            match r {
                Some(c) => self@.contains_key(id@) && *c == self@[id@] && c.wf(),
                None => !self@.contains_key(id@),
            },
    {
        self.contexts.get(id)
    }

    /// Replaces the context stored under `id`; fails when none is there.
    pub fn update(&mut self, id: &str, context: Context) -> (r: AgentResult<()>)
        requires
            old(self).wf(),
            context.wf(),
        ensures
            final(self).wf(),
            r is Ok <==> old(self)@.contains_key(id@),
            r is Ok ==> final(self)@ == old(self)@.insert(id@, context),
            r is Err ==> final(self)@ == old(self)@ && (r matches Err(e) && e matches
                AgentError::Context(s) && s@ == "Context "@ + id@ + " not found"@),
    {
        if self.contexts.contains_key(id) {
            self.contexts.insert(id, context);
            Ok(())
        } else {
            let mut m = String::from_str("Context ");
            m.append(id);
            m.append(" not found");
            Err(AgentError::Context(m))
        }
    }

    pub fn delete(&mut self, id: &str)
        requires
            old(self).wf(),
        ensures
            final(self).wf(),
            final(self)@ == old(self)@.remove(id@),
    {
        self.contexts.remove(id);
    }

    /// The identifiers of every live context.
    pub fn list_ids(&self) -> (r: Vec<String>)
        requires
            self.wf(),
        ensures
            r@.len() == self@.dom().len(),
            forall|i: int| 0 <= i < r@.len() ==> self@.contains_key(#[trigger] r@[i]@),
    {
        let r = self.contexts.keys();
        proof {
            self.contexts.lemma_view_entries();
            crate::strmap::lemma_map_of_len(self.contexts.entries_seq());
        }
        r
    }

    /// A copy of every live context, in creation order.
    pub fn list(&self) -> (r: Vec<Context>)
        requires
            self.wf(),
        ensures
            r@.len() == self@.dom().len(),
            forall|i: int| 0 <= i < r@.len() ==> (#[trigger] r@[i]).wf(),
    {
        let n = self.contexts.len();
        let mut r: Vec<Context> = Vec::new();
        let mut i: usize = 0;
        while i < n
            invariant
                self.wf(),
                n == self.contexts.entries_seq().len(),
                i <= n,
                r@.len() == i,
                forall|j: int| 0 <= j < i ==> (#[trigger] r@[j]).wf(),
            decreases n - i,
        {
            let c = self.contexts.value_at(i);
            proof {
                self.contexts.lemma_view_entries();
                crate::strmap::lemma_map_of_index(self.contexts.entries_seq(), i as int);
                assert(self.contexts@.contains_key(self.contexts.entries_seq()[i as int].0@));
                assert(self.contexts@[self.contexts.entries_seq()[i as int].0@].wf());
                assert((*c).wf());
            }
            let copy = c.clone();
            proof {
                assert(copy.msgs() == c.msgs());
                assert(copy.wf());
            }
            r.push(copy);
            i += 1;
        }
        proof {
            self.contexts.lemma_view_entries();
            crate::strmap::lemma_map_of_len(self.contexts.entries_seq());
            assert(r@.len() == self.contexts@.dom().len());
        }
        r
    }

    /// Drops every context.
    pub fn clear(&mut self)
        ensures
            final(self).wf(),
            final(self)@ == Map::<Seq<char>, Context>::empty(),
    {
        self.contexts.clear();
    }
}

impl Default for ContextManager {
    fn default() -> (r: ContextManager)
        ensures
            r.wf(),
            r@ == Map::<Seq<char>, Context>::empty(),
    {
        ContextManager::new()
    }
}

} // verus!
