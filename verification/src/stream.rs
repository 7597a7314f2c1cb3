//! The streaming-response decoder.
//!
//! The provider's streaming feed arrives as newline-delimited text
//! records. Empty lines are ignored, every other record is `data: ` plus a
//! payload: the sentinel `[DONE]` or a JSON delta chunk. `chunk_to_event`
//! turns one chunk into events, taking only tool-call fragments that carry
//! a complete triple; `StreamDecoder` is the production path, which
//! accumulates fragments keyed by their per-call index and emits one
//! `ToolCall` event per assembled call when a choice finishes. A malformed
//! payload yields one `Error` event and decoding goes on with the next
//! line.

use vstd::prelude::*;
use crate::jsonio::{
    json_as_array, json_as_str, json_as_u64, json_get, json_parse, json_wf,
};
use crate::message::opt_str_view;
use crate::text::{spec_trim_ws, str_eq, str_has_prefix, str_skip, str_trim};

verus! {

/// One delta chunk of a streaming response.
#[derive(Debug)]
pub struct StreamChunk {
    pub id: String,
    pub object: String,
    pub created: u64,
    pub model: String,
    pub choices: Vec<StreamChoice>,
}

#[derive(Debug)]
pub struct StreamChoice {
    pub index: u32,
    pub delta: StreamDelta,
    pub finish_reason: Option<String>,
}

#[derive(Debug)]
pub struct StreamDelta {
    pub role: Option<String>,
    pub content: Option<String>,
    pub tool_calls: Option<Vec<StreamToolCall>>,
}

/// One tool-call fragment; a single call's fields may arrive spread over
/// several fragments that share an index.
#[derive(Debug)]
pub struct StreamToolCall {
    pub index: u32,
    pub id: Option<String>,
    pub tool_type: Option<String>,
    pub function: Option<StreamFunction>,
}

#[derive(Debug)]
pub struct StreamFunction {
    pub name: Option<String>,
    pub arguments: Option<String>,
}

/// One decoded unit of a streaming response.
#[derive(Debug, PartialEq, Eq)]
pub enum StreamEvent {
    Token(String),
    ToolCall { id: String, name: String, arguments: String },
    Done,
    Error(String),
}

/// The mathematical content of a `StreamEvent`.
pub ghost enum StreamEventView {
    Token(Seq<char>),
    ToolCall { id: Seq<char>, name: Seq<char>, arguments: Seq<char> },
    Done,
    Error(Seq<char>),
}

impl View for StreamEvent {
    type V = StreamEventView;

    open spec fn view(&self) -> StreamEventView {
        match self {
            StreamEvent::Token(t) => StreamEventView::Token(t@),
            StreamEvent::ToolCall { id, name, arguments } => StreamEventView::ToolCall {
                id: id@,
                name: name@,
                arguments: arguments@,
            },
            StreamEvent::Done => StreamEventView::Done,
            StreamEvent::Error(e) => StreamEventView::Error(e@),
        }
    }
}

impl DeepView for StreamEvent {
    type V = StreamEventView;

    open spec fn deep_view(&self) -> StreamEventView {
        self@
    }
}

impl Clone for StreamEvent {
    fn clone(&self) -> (r: StreamEvent)
        ensures
            r@ == self@,
    {
        match self {
            StreamEvent::Token(t) => StreamEvent::Token(t.clone()),
            StreamEvent::ToolCall { id, name, arguments } => StreamEvent::ToolCall {
                id: id.clone(),
                name: name.clone(),
                arguments: arguments.clone(),
            },
            StreamEvent::Done => StreamEvent::Done,
            StreamEvent::Error(e) => StreamEvent::Error(e.clone()),
        }
    }
}

/// The text `StreamEvent::to_string` renders.
pub open spec fn spec_event_text(e: StreamEventView) -> Seq<char> {
    match e {
        StreamEventView::Token(t) => t,
        StreamEventView::ToolCall { id, name, arguments } => "[ToolCall: "@ + name + "("@ + id
            + ") args="@ + arguments + "]"@,
        StreamEventView::Done => "[Done]"@,
        StreamEventView::Error(err) => "[Error: "@ + err + "]"@,
    }
}

impl StreamEvent {
    /// One line of text describing the event.
    pub fn to_string(&self) -> (r: String)
        ensures
            r@ == spec_event_text(self@),
    {
        match self {
            StreamEvent::Token(t) => t.clone(),
            StreamEvent::ToolCall { id, name, arguments } => {
                let mut s = String::from_str("[ToolCall: ");
                s.append(name.as_str());
                s.append("(");
                s.append(id.as_str());
                s.append(") args=");
                s.append(arguments.as_str());
                s.append("]");
                s
            },
            StreamEvent::Done => String::from_str("[Done]"),
            StreamEvent::Error(err) => {
                let mut s = String::from_str("[Error: ");
                s.append(err.as_str());
                s.append("]");
                s
            },
        }
    }
}

/// The identifier a fragment carries, if any.
pub open spec fn frag_id(f: StreamToolCall) -> Option<Seq<char>> {
    opt_str_view(f.id)
}

/// The function name a fragment carries, if any.
pub open spec fn frag_name(f: StreamToolCall) -> Option<Seq<char>> {
    match f.function {
        Some(g) => opt_str_view(g.name),
        None => None,
    }
}

/// The argument text a fragment carries; absent means empty.
pub open spec fn frag_args(f: StreamToolCall) -> Seq<char> {
    match f.function {
        Some(g) => match g.arguments {
            Some(a) => a@,
            None => Seq::empty(),
        },
        None => Seq::empty(),
    }
}

/// Whether a single fragment carries a complete `{id, name, arguments}`
/// triple.
pub open spec fn frag_complete(f: StreamToolCall) -> bool {
    &&& f.id is Some
    &&& f.function matches Some(g) && g.name is Some && g.arguments is Some
}

/// The events of the complete fragments of a list, in order.
pub open spec fn complete_frag_events(frags: Seq<StreamToolCall>) -> Seq<StreamEventView>
    decreases frags.len(),
{
    if frags.len() == 0 {
        Seq::empty()
    } else {
        complete_frag_events(frags.drop_last()) + if frag_complete(frags.last()) {
            seq![
                StreamEventView::ToolCall {
                    id: frag_id(frags.last())->Some_0,
                    name: frag_name(frags.last())->Some_0,
                    arguments: frag_args(frags.last()),
                },
            ]
        } else {
            Seq::empty()
        }
    }
}

/// The token event of a choice, when its delta carries non-empty content.
pub open spec fn token_events(c: StreamChoice) -> Seq<StreamEventView> {
    match c.delta.content {
        Some(t) => if t@.len() > 0 {
            seq![StreamEventView::Token(t@)]
        } else {
            Seq::empty()
        },
        None => Seq::empty(),
    }
}

/// The events of one choice, as `chunk_to_event` reads it: the token, one
/// event per complete tool-call fragment, and a completion marker when the
/// choice carries a finish reason.
pub open spec fn choice_events(c: StreamChoice) -> Seq<StreamEventView> {
    token_events(c) + (match c.delta.tool_calls {
        Some(v) => complete_frag_events(v@),
        None => Seq::empty(),
    }) + (if c.finish_reason is Some {
        seq![StreamEventView::Done]
    } else {
        Seq::empty()
    })
}

/// The events of a whole chunk: its choices' events, in order.
pub open spec fn chunk_events(cs: Seq<StreamChoice>) -> Seq<StreamEventView>
    decreases cs.len(),
{
    if cs.len() == 0 {
        Seq::empty()
    } else {
        chunk_events(cs.drop_last()) + choice_events(cs.last())
    }
}

fn choice_to_events(c: &StreamChoice) -> (r: Vec<StreamEvent>)
    ensures
        r.deep_view() == choice_events(*c),
{
    let mut r: Vec<StreamEvent> = Vec::new();
    match &c.delta.content {
        Some(t) => {
            if !t.as_str().is_empty() {
                let ghost before = r.deep_view();
                r.push(StreamEvent::Token(t.clone()));
                proof {
                    assert(r.deep_view() =~= before.push(StreamEventView::Token(t@)));
                }
            }
        },
        None => {},
    }
    proof {
        assert(r.deep_view() =~= token_events(*c));
    }
    match &c.delta.tool_calls {
        Some(v) => {
            let n = v.len();
            let mut i: usize = 0;
            while i < n
                invariant
                    n == v@.len(),
                    i <= n,
                    r.deep_view() =~= token_events(*c) + complete_frag_events(v@.take(i as int)),
                decreases n - i,
            {
                proof {
                    assert(v@.take(i + 1).drop_last() =~= v@.take(i as int));
                }
                let frag = &v[i];
                match (&frag.id, &frag.function) {
                    (Some(id), Some(function)) => {
                        match (&function.name, &function.arguments) {
                            (Some(name), Some(arguments)) => {
                                let ghost before = r.deep_view();
                                let ev = StreamEvent::ToolCall {
                                    id: id.clone(),
                                    name: name.clone(),
                                    arguments: arguments.clone(),
                                };
                                let ghost evv = ev@;
                                r.push(ev);
                                proof {
                                    assert(r.deep_view() =~= before.push(evv));
                                    assert(frag_complete(v@[i as int]));
                                    assert(evv == StreamEventView::ToolCall {
                                        id: frag_id(v@[i as int])->Some_0,
                                        name: frag_name(v@[i as int])->Some_0,
                                        arguments: frag_args(v@[i as int]),
                                    });
                                    assert(r.deep_view() =~= token_events(*c)
                                        + complete_frag_events(v@.take(i + 1)));
                                }
                            },
                            _ => {
                                proof {
                                    assert(!frag_complete(v@[i as int]));
                                }
                            },
                        }
                    },
                    _ => {
                        proof {
                            assert(!frag_complete(v@[i as int]));
                        }
                    },
                }
                i += 1;
            }
            proof {
                assert(v@.take(n as int) =~= v@);
            }
        },
        None => {},
    }
    if c.finish_reason.is_some() {
        let ghost before = r.deep_view();
        r.push(StreamEvent::Done);
        proof {
            assert(r.deep_view() =~= before.push(StreamEventView::Done));
        }
    }
    proof {
        assert(r.deep_view() =~= choice_events(*c));
    }
    r
}

/// The events a single chunk yields, reading only tool-call fragments that
/// carry a complete triple.
pub fn chunk_to_event(chunk: &StreamChunk) -> (r: Vec<StreamEvent>)
    ensures
        r.deep_view() == chunk_events(chunk.choices@),
{
    let mut r: Vec<StreamEvent> = Vec::new();
    let n = chunk.choices.len();
    let mut i: usize = 0;
    while i < n
        invariant
            n == chunk.choices@.len(),
            i <= n,
            r.deep_view() =~= chunk_events(chunk.choices@.take(i as int)),
        decreases n - i,
    {
        proof {
            assert(chunk.choices@.take(i + 1).drop_last() =~= chunk.choices@.take(i as int));
        }
        let mut evs = choice_to_events(&chunk.choices[i]);
        let ghost prev = r.deep_view();
        let ghost evsv = evs.deep_view();
        let m = evs.len();
        let mut j: usize = 0;
        while j < m
            invariant
                m == evs.deep_view().len(),
                evsv == evs.deep_view(),
                j <= m,
                r.deep_view() =~= prev + evsv.take(j as int),
            decreases m - j,
        {
            let ghost before = r.deep_view();
            let e = evs[j].clone();
            r.push(e);
            proof {
                assert(r.deep_view() =~= before.push(evsv[j as int]));
                assert(prev + evsv.take(j + 1) =~= (prev + evsv.take(j as int)).push(
                    evsv[j as int],
                ));
            }
            j += 1;
        }
        proof {
            assert(evsv.take(m as int) =~= evsv);
            assert(r.deep_view() =~= chunk_events(chunk.choices@.take(i + 1)));
        }
        i += 1;
    }
    proof {
        assert(chunk.choices@.take(n as int) =~= chunk.choices@);
    }
    r
}

/// Reads one field of a JSON object as text, cloned out.
fn value_str_field(v: &serde_json::Value, key: &str) -> Option<String> {
    match json_get(v, key) {
        Some(f) => match json_as_str(f) {
            Some(s) => Some(s.to_owned()),
            None => None,
        },
        None => None,
    }
}

/// Rebuilds one tool-call fragment from its JSON form; the index is
/// required, everything else optional.
fn fragment_from_value(v: &serde_json::Value) -> Option<StreamToolCall> {
    let index_v = json_get(v, "index");
    let index: u32 = match index_v {
        Some(iv) => match json_as_u64(iv) {
            Some(n) => if n <= u32::MAX as u64 {
                n as u32
            } else {
                return None;
            },
            None => {
                return None;
            },
        },
        None => {
            return None;
        },
    };
    let function = match json_get(v, "function") {
        Some(fv) => Some(
            StreamFunction {
                name: value_str_field(fv, "name"),
                arguments: value_str_field(fv, "arguments"),
            },
        ),
        None => None,
    };
    Some(
        StreamToolCall {
            index,
            id: value_str_field(v, "id"),
            tool_type: value_str_field(v, "type"),
            function,
        },
    )
}

/// Rebuilds one choice from its JSON form; index and delta are required.
fn choice_from_value(v: &serde_json::Value) -> Option<StreamChoice> {
    let index: u32 = match json_get(v, "index") {
        Some(iv) => match json_as_u64(iv) {
            Some(n) => if n <= u32::MAX as u64 {
                n as u32
            } else {
                return None;
            },
            None => {
                return None;
            },
        },
        None => {
            return None;
        },
    };
    let delta_v = match json_get(v, "delta") {
        Some(d) => d,
        None => {
            return None;
        },
    };
    let tool_calls: Option<Vec<StreamToolCall>> = match json_get(delta_v, "tool_calls") {
        Some(tv) => match json_as_array(tv) {
            Some(items) => {
                let mut frags: Vec<StreamToolCall> = Vec::new();
                let n = items.len();
                let mut i: usize = 0;
                while i < n
                    invariant
                        n == items@.len(),
                        i <= n,
                    decreases n - i,
                {
                    match fragment_from_value(&items[i]) {
                        Some(f) => {
                            frags.push(f);
                        },
                        None => {
                            return None;
                        },
                    }
                    i += 1;
                }
                Some(frags)
            },
            None => {
                return None;
            },
        },
        None => None,
    };
    let delta = StreamDelta {
        role: value_str_field(delta_v, "role"),
        content: value_str_field(delta_v, "content"),
        tool_calls,
    };
    Some(StreamChoice { index, delta, finish_reason: value_str_field(v, "finish_reason") })
}

/// Rebuilds a delta chunk from its JSON form; id, object, created, model
/// and choices are all required, as the wire format states.
fn chunk_from_value(v: &serde_json::Value) -> Option<StreamChunk> {
    let id = match value_str_field(v, "id") {
        Some(s) => s,
        None => {
            return None;
        },
    };
    let object = match value_str_field(v, "object") {
        Some(s) => s,
        None => {
            return None;
        },
    };
    let created: u64 = match json_get(v, "created") {
        Some(cv) => match json_as_u64(cv) {
            Some(n) => n,
            None => {
                return None;
            },
        },
        None => {
            return None;
        },
    };
    let model = match value_str_field(v, "model") {
        Some(s) => s,
        None => {
            return None;
        },
    };
    let choices_v = match json_get(v, "choices") {
        Some(cv) => cv,
        None => {
            return None;
        },
    };
    let items = match json_as_array(choices_v) {
        Some(a) => a,
        None => {
            return None;
        },
    };
    let mut choices: Vec<StreamChoice> = Vec::new();
    let n = items.len();
    let mut i: usize = 0;
    while i < n
        invariant
            n == items@.len(),
            i <= n,
        decreases n - i,
    {
        match choice_from_value(&items[i]) {
            Some(c) => {
                choices.push(c);
            },
            None => {
                return None;
            },
        }
        i += 1;
    }
    Some(StreamChunk { id, object, created, model, choices })
}

/// Classifies one feed line. An empty line, a line without the `data: `
/// frame, and the `[DONE]` sentinel all yield no chunk; a well-shaped JSON
/// payload yields its chunk; anything else is an error whose text
/// describes the failure.
pub fn parse_sse_line(line: &str) -> (r: Result<Option<StreamChunk>, String>)
    ensures
        spec_trim_ws(line@).len() == 0 ==> (r matches Ok(c) && c is None),
        ({
            let t = spec_trim_ws(line@);
            t.len() > 0 && !(t.len() >= 6 && t.subrange(0, 6) == "data: "@)
        }) ==> (r matches Ok(c) && c is None),
        ({
            let t = spec_trim_ws(line@);
            t.len() >= 6 && t.subrange(0, 6) == "data: "@ && t.skip(6) == "[DONE]"@
        }) ==> (r matches Ok(c) && c is None),
        ({
            let t = spec_trim_ws(line@);
            t.len() >= 6 && t.subrange(0, 6) == "data: "@ && t.skip(6) != "[DONE]"@ && !json_wf(
                t.skip(6),
            )
        }) ==> r is Err,
{
    proof {
        reveal_strlit("data: ");
        reveal_strlit("[DONE]");
        assert("data: "@.len() == 6);
    }
    let trimmed = str_trim(line);
    if trimmed.is_empty() {
        return Ok(None);
    }
    if !str_has_prefix(trimmed, "data: ") {
        return Ok(None);
    }
    let payload = str_skip(trimmed, 6);
    if str_eq(payload, "[DONE]") {
        return Ok(None);
    }
    match json_parse(payload) {
        Err(e) => {
            let mut m = String::from_str("Failed to parse SSE data: ");
            m.append(e.as_str());
            Err(m)
        },
        Ok(v) => {
            match chunk_from_value(&v) {
                Some(chunk) => Ok(Some(chunk)),
                None => Err(
                    String::from_str("Failed to parse SSE data: missing or mistyped field"),
                ),
            }
        },
    }
}

/// A tool call under assembly: the fields seen so far for one call index.
#[derive(Debug)]
pub struct PendingToolCall {
    pub index: u32,
    pub id: Option<String>,
    pub name: Option<String>,
    pub arguments: String,
}

/// The mathematical content of a `PendingToolCall`.
pub ghost struct PendingView {
    pub index: u32,
    pub id: Option<Seq<char>>,
    pub name: Option<Seq<char>>,
    pub arguments: Seq<char>,
}

impl View for PendingToolCall {
    type V = PendingView;

    open spec fn view(&self) -> PendingView {
        PendingView {
            index: self.index,
            id: opt_str_view(self.id),
            name: opt_str_view(self.name),
            arguments: self.arguments@,
        }
    }
}

impl DeepView for PendingToolCall {
    type V = PendingView;

    open spec fn deep_view(&self) -> PendingView {
        self@
    }
}

/// A fresh assembly opened by this fragment.
pub open spec fn fresh_pending(f: StreamToolCall) -> PendingView {
    PendingView { index: f.index, id: frag_id(f), name: frag_name(f), arguments: frag_args(f) }
}

/// An assembly extended by this fragment: the first identifier and name
/// seen win, argument text accumulates.
pub open spec fn merge_pending(p: PendingView, f: StreamToolCall) -> PendingView {
    PendingView {
        index: p.index,
        id: if p.id is Some {
            p.id
        } else {
            frag_id(f)
        },
        name: if p.name is Some {
            p.name
        } else {
            frag_name(f)
        },
        arguments: p.arguments + frag_args(f),
    }
}

/// Whether some assembly carries this call index.
pub open spec fn has_index(pending: Seq<PendingView>, idx: u32) -> bool {
    exists|j: int| 0 <= j < pending.len() && (#[trigger] pending[j]).index == idx
}

/// The assemblies after one fragment: merged into the entry of its index,
/// or opened as a new entry at the back.
pub open spec fn merge_fragment(pending: Seq<PendingView>, f: StreamToolCall) -> Seq<PendingView> {
    if has_index(pending, f.index) {
        let j = choose|j: int| 0 <= j < pending.len() && (#[trigger] pending[j]).index == f.index;
        pending.update(j, merge_pending(pending[j], f))
    } else {
        pending.push(fresh_pending(f))
    }
}

/// The assemblies after a list of fragments.
pub open spec fn merge_fragments(pending: Seq<PendingView>, frags: Seq<StreamToolCall>) -> Seq<
    PendingView,
>
    decreases frags.len(),
{
    if frags.len() == 0 {
        pending
    } else {
        merge_fragment(merge_fragments(pending, frags.drop_last()), frags.last())
    }
}

/// One event per assembled call — an entry that has seen an identifier
/// and a name — in assembly order.
pub open spec fn flush_events(pending: Seq<PendingView>) -> Seq<StreamEventView>
    decreases pending.len(),
{
    if pending.len() == 0 {
        Seq::empty()
    } else {
        flush_events(pending.drop_last()) + if pending.last().id is Some && pending.last().name
            is Some {
            seq![
                StreamEventView::ToolCall {
                    id: pending.last().id->Some_0,
                    name: pending.last().name->Some_0,
                    arguments: pending.last().arguments,
                },
            ]
        } else {
            Seq::empty()
        }
    }
}

/// Call indices under assembly are pairwise distinct.
pub open spec fn pending_distinct(pending: Seq<PendingView>) -> bool {
    forall|i: int, j: int|
        0 <= i < j < pending.len() ==> (#[trigger] pending[i]).index != (
        #[trigger] pending[j]).index
}

/// The events and remaining assemblies after one choice: the token, then
/// its fragments merged, and — when the choice finishes — the assembled
/// calls flushed, a completion marker emitted, and the assembly reset.
pub open spec fn choice_step_events(pending: Seq<PendingView>, c: StreamChoice) -> Seq<
    StreamEventView,
> {
    let merged = match c.delta.tool_calls {
        Some(v) => merge_fragments(pending, v@),
        None => pending,
    };
    token_events(c) + if c.finish_reason is Some {
        flush_events(merged) + seq![StreamEventView::Done]
    } else {
        Seq::empty()
    }
}

pub open spec fn choice_step_pending(pending: Seq<PendingView>, c: StreamChoice) -> Seq<
    PendingView,
> {
    let merged = match c.delta.tool_calls {
        Some(v) => merge_fragments(pending, v@),
        None => pending,
    };
    if c.finish_reason is Some {
        Seq::empty()
    } else {
        merged
    }
}

/// The events of a whole chunk through the accumulating decoder.
pub open spec fn decode_chunk_events(pending: Seq<PendingView>, cs: Seq<StreamChoice>) -> Seq<
    StreamEventView,
>
    decreases cs.len(),
{
    if cs.len() == 0 {
        Seq::empty()
    } else {
        decode_chunk_events(pending, cs.drop_last()) + choice_step_events(
            decode_chunk_pending(pending, cs.drop_last()),
            cs.last(),
        )
    }
}

pub open spec fn decode_chunk_pending(pending: Seq<PendingView>, cs: Seq<StreamChoice>) -> Seq<
    PendingView,
>
    decreases cs.len(),
{
    if cs.len() == 0 {
        pending
    } else {
        choice_step_pending(decode_chunk_pending(pending, cs.drop_last()), cs.last())
    }
}

/// The accumulating decoder: assemblies of tool calls still under way.
pub struct StreamDecoder {
    pending: Vec<PendingToolCall>,
}

impl StreamDecoder {
    pub closed spec fn pending_view(&self) -> Seq<PendingView> {
        self.pending.deep_view()
    }

    pub open spec fn wf(&self) -> bool {
        pending_distinct(self.pending_view())
    }

    pub fn new() -> (r: StreamDecoder)
        ensures
            r.wf(),
            r.pending_view() =~= Seq::<PendingView>::empty(),
    {
        let r = StreamDecoder { pending: Vec::new() };
        proof {
            assert(r.pending_view() =~= Seq::<PendingView>::empty());
        }
        r
    }

    /// Merges one fragment into the assembly of its call index, or opens
    /// a new assembly.
    fn absorb_fragment(&mut self, frag: &StreamToolCall)
        requires
            old(self).wf(),
        ensures
            final(self).wf(),
            final(self).pending_view() == merge_fragment(old(self).pending_view(), *frag),
    {
        let n = self.pending.len();
        let mut i: usize = 0;
        while i < n
            invariant
                old(self).wf(),
                self.pending_view() == old(self).pending_view(),
                n == self.pending_view().len(),
                i <= n,
                forall|j: int| 0 <= j < i ==> (#[trigger] self.pending_view()[j]).index
                    != frag.index,
            decreases n - i,
        {
            if self.pending[i].index == frag.index {
                let entry = &self.pending[i];
                let new_id: Option<String> = match &entry.id {
                    Some(s) => Some(s.clone()),
                    None => match &frag.id {
                        Some(s) => Some(s.clone()),
                        None => None,
                    },
                };
                let new_name: Option<String> = match &entry.name {
                    Some(s) => Some(s.clone()),
                    None => match &frag.function {
                        Some(g) => match &g.name {
                            Some(s) => Some(s.clone()),
                            None => None,
                        },
                        None => None,
                    },
                };
                let mut new_args = entry.arguments.clone();
                match &frag.function {
                    Some(g) => match &g.arguments {
                        Some(a) => {
                            new_args.append(a.as_str());
                        },
                        None => {},
                    },
                    None => {},
                }
                let updated = PendingToolCall {
                    index: frag.index,
                    id: new_id,
                    name: new_name,
                    arguments: new_args,
                };
                let ghost before = self.pending_view();
                proof {
                    assert(before == old(self).pending_view());
                    assert(before[i as int].index == frag.index);
                    assert(updated@ == merge_pending(before[i as int], *frag));
                }
                self.pending.set(i, updated);
                proof {
                    assert(self.pending_view() =~= before.update(
                        i as int,
                        merge_pending(before[i as int], *frag),
                    ));
                    assert(has_index(before, frag.index));
                    assert(pending_distinct(before));
                    let w = choose|j: int|
                        0 <= j < before.len() && (#[trigger] before[j]).index == frag.index;
                    if w != i as int {
                        assert((#[trigger] before[w]).index == frag.index);
                        assert(before[i as int].index == frag.index);
                        assert(false);
                    }
                    assert(merge_fragment(before, *frag) == before.update(
                        w,
                        merge_pending(before[w], *frag),
                    ));
                    assert(self.pending_view() =~= merge_fragment(before, *frag));
                    assert forall|a: int, b: int|
                        0 <= a < b < self.pending_view().len() implies (
                    #[trigger] self.pending_view()[a]).index != (
                    #[trigger] self.pending_view()[b]).index by {
                        assert(self.pending_view()[a].index == before[a].index);
                        assert(self.pending_view()[b].index == before[b].index);
                    }
                }
                return ;
            }
            i += 1;
        }
        let fresh = PendingToolCall {
            index: frag.index,
            id: match &frag.id {
                Some(s) => Some(s.clone()),
                None => None,
            },
            name: match &frag.function {
                Some(g) => match &g.name {
                    Some(s) => Some(s.clone()),
                    None => None,
                },
                None => None,
            },
            arguments: match &frag.function {
                Some(g) => match &g.arguments {
                    Some(a) => a.clone(),
                    None => String::new(),
                },
                None => String::new(),
            },
        };
        proof {
            assert(fresh@ == fresh_pending(*frag));
            assert(!has_index(self.pending_view(), frag.index));
        }
        let ghost before = self.pending_view();
        self.pending.push(fresh);
        proof {
            assert(self.pending_view() =~= before.push(fresh_pending(*frag)));
            assert(!has_index(before, frag.index));
            assert(merge_fragment(before, *frag) == before.push(fresh_pending(*frag)));
            assert forall|a: int, b: int|
                0 <= a < b < self.pending_view().len() implies (
            #[trigger] self.pending_view()[a]).index != (#[trigger] self.pending_view()[b]).index
                by {
                if b < before.len() {
                    assert(before[a].index != before[b].index);
                } else {
                    assert(self.pending_view()[b] == fresh_pending(*frag));
                    assert(before[a].index != frag.index);
                }
            }
        }
    }

    /// Emits one `ToolCall` event for every assembled call and resets the
    /// assembly.
    fn flush(&mut self, out: &mut Vec<StreamEvent>)
        requires
            old(self).wf(),
        ensures
            final(self).wf(),
            final(self).pending_view() =~= Seq::<PendingView>::empty(),
            final(out).deep_view() == old(out).deep_view() + flush_events(old(self).pending_view()),
    {
        let n = self.pending.len();
        let mut i: usize = 0;
        while i < n
            invariant
                n == self.pending_view().len(),
                self.pending_view() == old(self).pending_view(),
                i <= n,
                out.deep_view() =~= old(out).deep_view() + flush_events(
                    self.pending_view().take(i as int),
                ),
            decreases n - i,
        {
            proof {
                assert(self.pending_view().take(i + 1).drop_last() =~= self.pending_view().take(
                    i as int,
                ));
            }
            let entry = &self.pending[i];
            match (&entry.id, &entry.name) {
                (Some(id), Some(name)) => {
                    let ghost before = out.deep_view();
                    out.push(
                        StreamEvent::ToolCall {
                            id: id.clone(),
                            name: name.clone(),
                            arguments: entry.arguments.clone(),
                        },
                    );
                    proof {
                        assert(out.deep_view() =~= before.push(
                            StreamEventView::ToolCall {
                                id: self.pending_view()[i as int].id->Some_0,
                                name: self.pending_view()[i as int].name->Some_0,
                                arguments: self.pending_view()[i as int].arguments,
                            },
                        ));
                    }
                },
                _ => {},
            }
            i += 1;
        }
        proof {
            assert(self.pending_view().take(n as int) =~= self.pending_view());
        }
        self.pending = Vec::new();
        proof {
            assert(self.pending_view() =~= Seq::<PendingView>::empty());
        }
    }

    /// Decodes one chunk: tokens are emitted as they come, tool-call
    /// fragments accumulate by call index, and a finished choice flushes
    /// its assembled calls before the completion marker.
    pub fn process_chunk(&mut self, chunk: &StreamChunk) -> (r: Vec<StreamEvent>)
        requires
            old(self).wf(),
        ensures
            final(self).wf(),
            r.deep_view() == decode_chunk_events(old(self).pending_view(), chunk.choices@),
            final(self).pending_view() == decode_chunk_pending(
                old(self).pending_view(),
                chunk.choices@,
            ),
    {
        let mut r: Vec<StreamEvent> = Vec::new();
        let n = chunk.choices.len();
        let mut i: usize = 0;
        while i < n
            invariant
                n == chunk.choices@.len(),
                i <= n,
                self.wf(),
                r.deep_view() =~= decode_chunk_events(
                    old(self).pending_view(),
                    chunk.choices@.take(i as int),
                ),
                self.pending_view() == decode_chunk_pending(
                    old(self).pending_view(),
                    chunk.choices@.take(i as int),
                ),
            decreases n - i,
        {
            proof {
                assert(chunk.choices@.take(i + 1).drop_last() =~= chunk.choices@.take(i as int));
            }
            let choice = &chunk.choices[i];
            let ghost pending_in = self.pending_view();
            let ghost events_in = r.deep_view();
            match &choice.delta.content {
                Some(t) => {
                    if !t.as_str().is_empty() {
                        let ghost before = r.deep_view();
                        r.push(StreamEvent::Token(t.clone()));
                        proof {
                            assert(r.deep_view() =~= before.push(StreamEventView::Token(t@)));
                        }
                    }
                },
                None => {},
            }
            proof {
                assert(r.deep_view() =~= events_in + token_events(*choice));
            }
            match &choice.delta.tool_calls {
                Some(v) => {
                    let m = v.len();
                    let mut j: usize = 0;
                    while j < m
                        invariant
                            m == v@.len(),
                            j <= m,
                            self.wf(),
                            self.pending_view() == merge_fragments(pending_in, v@.take(j as int)),
                        decreases m - j,
                    {
                        proof {
                            assert(v@.take(j + 1).drop_last() =~= v@.take(j as int));
                        }
                        self.absorb_fragment(&v[j]);
                        j += 1;
                    }
                    proof {
                        assert(v@.take(m as int) =~= v@);
                    }
                },
                None => {},
            }
            if choice.finish_reason.is_some() {
                self.flush(&mut r);
                let ghost before = r.deep_view();
                r.push(StreamEvent::Done);
                proof {
                    assert(r.deep_view() =~= before.push(StreamEventView::Done));
                }
            }
            proof {
                assert(r.deep_view() =~= events_in + choice_step_events(pending_in, *choice));
                assert(self.pending_view() == choice_step_pending(pending_in, *choice));
                assert(r.deep_view() =~= decode_chunk_events(
                    old(self).pending_view(),
                    chunk.choices@.take(i + 1),
                ));
            }
            i += 1;
        }
        proof {
            assert(chunk.choices@.take(n as int) =~= chunk.choices@);
        }
        r
    }

    /// Decodes one feed line: nothing for blank or unframed lines, the
    /// assembled calls and the completion marker for the `[DONE]`
    /// sentinel, the chunk's events for a payload, and a single `Error`
    /// event for a malformed payload.
    pub fn feed_line(&mut self, line: &str) -> (r: Vec<StreamEvent>)
        requires
            old(self).wf(),
        ensures
            final(self).wf(),
            ({
                let t = spec_trim_ws(line@);
                t.len() == 0 || !(t.len() >= 6 && t.subrange(0, 6) == "data: "@)
            }) ==> r.deep_view() =~= Seq::<StreamEventView>::empty() && final(self).pending_view()
                == old(self).pending_view(),
            ({
                let t = spec_trim_ws(line@);
                t.len() >= 6 && t.subrange(0, 6) == "data: "@ && t.skip(6) == "[DONE]"@
            }) ==> r.deep_view() =~= flush_events(old(self).pending_view()).push(
                StreamEventView::Done,
            ) && final(self).pending_view() =~= Seq::<PendingView>::empty(),
            ({
                let t = spec_trim_ws(line@);
                t.len() >= 6 && t.subrange(0, 6) == "data: "@ && t.skip(6) != "[DONE]"@ && !json_wf(
                    t.skip(6),
                )
            }) ==> {
                &&& r.deep_view().len() == 1
                &&& r.deep_view()[0] is Error
                &&& final(self).pending_view() == old(self).pending_view()
            },
    {
        proof {
            reveal_strlit("data: ");
            reveal_strlit("[DONE]");
            assert("data: "@.len() == 6);
        }
        let trimmed = str_trim(line);
        if trimmed.is_empty() {
            let out: Vec<StreamEvent> = Vec::new();
            proof {
                assert(out.deep_view() =~= Seq::<StreamEventView>::empty());
            }
            return out;
        }
        if !str_has_prefix(trimmed, "data: ") {
            let out: Vec<StreamEvent> = Vec::new();
            proof {
                assert(out.deep_view() =~= Seq::<StreamEventView>::empty());
            }
            return out;
        }
        let payload = str_skip(trimmed, 6);
        if str_eq(payload, "[DONE]") {
            let mut out: Vec<StreamEvent> = Vec::new();
            self.flush(&mut out);
            let ghost before = out.deep_view();
            out.push(StreamEvent::Done);
            proof {
                assert(out.deep_view() =~= before.push(StreamEventView::Done));
            }
            return out;
        }
        match json_parse(payload) {
            Err(e) => {
                let mut m = String::from_str("Failed to parse SSE data: ");
                m.append(e.as_str());
                let mut out: Vec<StreamEvent> = Vec::new();
                out.push(StreamEvent::Error(m));
                out
            },
            Ok(v) => {
                match chunk_from_value(&v) {
                    Some(chunk) => self.process_chunk(&chunk),
                    None => {
                        let mut out: Vec<StreamEvent> = Vec::new();
                        out.push(
                            StreamEvent::Error(
                                String::from_str(
                                    "Failed to parse SSE data: missing or mistyped field",
                                ),
                            ),
                        );
                        out
                    },
                }
            },
        }
    }
}

} // verus!
