//! Normalizing a Responses protocol event stream into jinn stream events.
//!
//! The protocol reports progress as semantic events keyed by the index of the
//! output item they belong to. The parser tracks the in-flight tool calls so a
//! finished call can be emitted complete, and remembers whether the turn ended
//! in tool use so the terminal event reports the right stop reason. Once a
//! terminal event (a completion or an error) has been emitted, the parser
//! emits nothing more.

use vstd::prelude::*;
use vstd::utf8::encode_utf8;

use crate::codecs::{opt_string_view, json_has_value_at, json_present_at, json_str_at, json_string_at, json_u64_at, json_u64_value_at};
use crate::text::str_eq;

verus! {

/// A tool call requested by the model.
#[derive(Debug, Clone, PartialEq, Eq)]
pub struct ToolCall {
    /// The call's id, echoed back with its result.
    pub id: String,
    /// The tool's name.
    pub name: String,
    /// The arguments, as JSON text.
    pub arguments: String,
}

/// Why a turn ended.
#[derive(Debug, Clone, PartialEq, Eq)]
pub enum StopReason {
    /// The model finished its turn.
    EndTurn,
    /// The model stopped to call tools.
    ToolUse,
    /// Another reason, named.
    Other(String),
}

/// Token usage of a finished response.
#[derive(Debug, Clone, Copy, PartialEq, Eq, Structural)]
pub struct StreamUsage {
    /// Input tokens.
    pub prompt_tokens: Option<u64>,
    /// Output tokens.
    pub completion_tokens: Option<u64>,
    /// Input tokens served from the provider's cache.
    pub cached_tokens: Option<u64>,
}

/// A provider-neutral stream event.
#[derive(Debug, Clone, PartialEq, Eq)]
pub enum StreamEvent {
    /// Assistant text.
    Text(String),
    /// Reasoning text, kept apart from the assistant's answer.
    Reasoning(String),
    /// A tool call began.
    ToolUseStart {
        /// The output slot it occupies.
        index: usize,
        /// The call's id.
        id: String,
        /// The tool's name.
        name: String,
    },
    /// A chunk of a tool call's arguments.
    ToolUseInputDelta {
        /// The output slot of the call.
        index: usize,
        /// The chunk, as JSON text.
        partial_json: String,
    },
    /// A tool call is complete.
    ToolUseComplete {
        /// The output slot of the call.
        index: usize,
        /// The complete call.
        tool_call: ToolCall,
    },
    /// The response completed.
    Done {
        /// Why the turn ended.
        stop_reason: StopReason,
        /// Token usage, when reported.
        usage: Option<StreamUsage>,
    },
    /// The response failed.
    Error {
        /// The provider's error code or type.
        error_type: String,
        /// What went wrong.
        message: String,
    },
}

/// A tool call whose arguments are still streaming.
#[derive(Debug, Clone)]
pub struct PendingToolCall {
    /// The call's id.
    pub call_id: String,
    /// The tool's name.
    pub name: String,
    /// The arguments received so far.
    pub arguments: String,
}

/// The text of a pending call: id, name, arguments so far.
pub struct PendingView {
    /// The call's id.
    pub call_id: Seq<char>,
    /// The tool's name.
    pub name: Seq<char>,
    /// The arguments received so far.
    pub arguments: Seq<char>,
}

/// A stop reason, by its text.
pub enum StopView {
    /// See [`StopReason::EndTurn`].
    EndTurn,
    /// See [`StopReason::ToolUse`].
    ToolUse,
    /// See [`StopReason::Other`].
    Other(Seq<char>),
}

/// A stream event, by its text.
pub enum EventView {
    /// See [`StreamEvent::Text`].
    Text(Seq<char>),
    /// See [`StreamEvent::Reasoning`].
    Reasoning(Seq<char>),
    /// See [`StreamEvent::ToolUseStart`]: index, id, name.
    ToolUseStart(usize, Seq<char>, Seq<char>),
    /// See [`StreamEvent::ToolUseInputDelta`]: index, chunk.
    ToolUseInputDelta(usize, Seq<char>),
    /// See [`StreamEvent::ToolUseComplete`]: index, id, name, arguments.
    ToolUseComplete(usize, Seq<char>, Seq<char>, Seq<char>),
    /// See [`StreamEvent::Done`].
    Done(StopView, Option<StreamUsage>),
    /// See [`StreamEvent::Error`]: type, message.
    Error(Seq<char>, Seq<char>),
}

/// The parser's state, by its text.
#[verifier::ext_equal]
pub struct ParserView {
    /// The calls still streaming, by output index.
    pub pending: Map<usize, PendingView>,
    /// Whether a tool call completed during this response.
    pub saw_tool_call: bool,
    /// Whether a terminal event has been emitted.
    pub finished: bool,
}

/// The text of a pending call.
pub open spec fn pending_view(c: PendingToolCall) -> PendingView {
    PendingView { call_id: c.call_id@, name: c.name@, arguments: c.arguments@ }
}

/// A stream event, by its text.
pub open spec fn event_view(e: StreamEvent) -> EventView {
    match e {
        StreamEvent::Text(t) => EventView::Text(t@),
        StreamEvent::Reasoning(t) => EventView::Reasoning(t@),
        StreamEvent::ToolUseStart { index, id, name } => EventView::ToolUseStart(index, id@, name@),
        StreamEvent::ToolUseInputDelta { index, partial_json } => EventView::ToolUseInputDelta(
            index,
            partial_json@,
        ),
        StreamEvent::ToolUseComplete { index, tool_call } => EventView::ToolUseComplete(
            index,
            tool_call.id@,
            tool_call.name@,
            tool_call.arguments@,
        ),
        StreamEvent::Done { stop_reason, usage } => EventView::Done(
            match stop_reason {
                StopReason::EndTurn => StopView::EndTurn,
                StopReason::ToolUse => StopView::ToolUse,
                StopReason::Other(s) => StopView::Other(s@),
            },
            usage,
        ),
        StreamEvent::Error { error_type, message } => EventView::Error(error_type@, message@),
    }
}

/// A list of stream events, by their text.
pub open spec fn events_view(es: Seq<StreamEvent>) -> Seq<EventView> {
    es.map_values(|e: StreamEvent| event_view(e))
}

/// The text at `pointer`, or the empty text.
pub open spec fn text_or_empty(doc: Seq<u8>, pointer: Seq<char>) -> Seq<char> {
    match json_str_at(doc, pointer) {
        Some(s) => s,
        None => Seq::empty(),
    }
}

/// The output index an event belongs to, defaulting to the first slot.
pub open spec fn event_index(doc: Seq<u8>) -> usize {
    match json_u64_at(doc, "/output_index"@) {
        Some(n) => n as usize,
        None => 0,
    }
}

/// Where a failed event keeps its error: under `response.error`, under
/// `error`, or the event itself.
pub open spec fn error_base(doc: Seq<u8>) -> Seq<char> {
    if json_present_at(doc, "/response/error"@) {
        "/response/error"@
    } else if json_present_at(doc, "/error"@) {
        "/error"@
    } else {
        Seq::empty()
    }
}

/// The error type of a failed event: its code, else its type, else
/// `response_failed`.
pub open spec fn error_type_of(doc: Seq<u8>) -> Seq<char> {
    match json_str_at(doc, error_base(doc) + "/code"@) {
        Some(c) => c,
        None => match json_str_at(doc, error_base(doc) + "/type"@) {
            Some(t) => t,
            None => "response_failed"@,
        },
    }
}

/// The message of a failed event: the error's message, else the reason the
/// response is incomplete, else a generic explanation.
pub open spec fn error_message_of(doc: Seq<u8>) -> Seq<char> {
    match json_str_at(doc, error_base(doc) + "/message"@) {
        Some(m) => m,
        None => match json_str_at(doc, "/response/incomplete_details/reason"@) {
            Some(r) => r,
            None => "the provider did not complete the response"@,
        },
    }
}

/// The token usage a finished response reports.
pub open spec fn usage_of(doc: Seq<u8>) -> Option<StreamUsage> {
    if json_present_at(doc, "/response/usage"@) {
        Some(
            StreamUsage {
                prompt_tokens: json_u64_at(doc, "/response/usage/input_tokens"@),
                completion_tokens: json_u64_at(doc, "/response/usage/output_tokens"@),
                cached_tokens: json_u64_at(doc, "/response/usage/input_tokens_details/cached_tokens"@),
            },
        )
    } else {
        None
    }
}

/// A failure: the parser finishes with the event's error.
pub open spec fn fail_step(st: ParserView, doc: Seq<u8>) -> (ParserView, Seq<EventView>) {
    (
        ParserView { finished: true, ..st },
        seq![EventView::Error(error_type_of(doc), error_message_of(doc))],
    )
}

/// Whether a terminal event reports a response that did not complete.
pub open spec fn is_incomplete(doc: Seq<u8>) -> bool {
    json_str_at(doc, "/response/status"@) == Some("incomplete"@) || json_str_at(doc, "/type"@)
        == Some("response.incomplete"@)
}

/// Whether a terminal event is really a failure: a failed or cancelled
/// status, or an incomplete response for any reason but the output limit.
pub open spec fn completion_fails(doc: Seq<u8>) -> bool {
    json_str_at(doc, "/response/status"@) == Some("failed"@) || json_str_at(
        doc,
        "/response/status"@,
    ) == Some("cancelled"@) || (is_incomplete(doc) && json_str_at(
        doc,
        "/response/incomplete_details/reason"@,
    ) != Some("max_output_tokens"@))
}

/// A completion: the parser finishes, reporting why the turn ended.
pub open spec fn finish_step(st: ParserView, doc: Seq<u8>) -> (ParserView, Seq<EventView>) {
    if completion_fails(doc) {
        fail_step(st, doc)
    } else {
        (
            ParserView { finished: true, ..st },
            seq![
                EventView::Done(
                    if is_incomplete(doc) {
                        StopView::Other("max_tokens"@)
                    } else if st.saw_tool_call {
                        StopView::ToolUse
                    } else {
                        StopView::EndTurn
                    },
                    usage_of(doc),
                ),
            ],
        )
    }
}

/// What one event payload (its UTF-8 bytes `doc`) does to the parser and
/// which events it yields.
pub open spec fn parse_step(st: ParserView, doc: Seq<u8>) -> (ParserView, Seq<EventView>) {
    let kind = json_str_at(doc, "/type"@);
    if st.finished || kind is None {
        (st, Seq::empty())
    } else {
        let k = kind->Some_0;
        if k == "response.output_text.delta"@ || k == "response.refusal.delta"@ {
            (
                st,
                match json_str_at(doc, "/delta"@) {
                    Some(d) => seq![EventView::Text(d)],
                    None => Seq::empty(),
                },
            )
        } else if k == "response.reasoning_summary_text.delta"@ || k
            == "response.reasoning_text.delta"@ {
            (
                st,
                match json_str_at(doc, "/delta"@) {
                    Some(d) => seq![EventView::Reasoning(d)],
                    None => Seq::empty(),
                },
            )
        } else if k == "response.output_item.added"@ {
            if json_str_at(doc, "/item/type"@) == Some("function_call"@) {
                let i = event_index(doc);
                let id = text_or_empty(doc, "/item/call_id"@);
                let name = text_or_empty(doc, "/item/name"@);
                (
                    ParserView {
                        pending: st.pending.insert(
                            i,
                            PendingView {
                                call_id: id,
                                name,
                                arguments: text_or_empty(doc, "/item/arguments"@),
                            },
                        ),
                        ..st
                    },
                    seq![EventView::ToolUseStart(i, id, name)],
                )
            } else {
                (st, Seq::empty())
            }
        } else if k == "response.function_call_arguments.delta"@ {
            let i = event_index(doc);
            match json_str_at(doc, "/delta"@) {
                Some(d) => if st.pending.dom().contains(i) {
                    let p = st.pending[i];
                    (
                        ParserView {
                            pending: st.pending.insert(
                                i,
                                PendingView { arguments: p.arguments + d, ..p },
                            ),
                            ..st
                        },
                        seq![EventView::ToolUseInputDelta(i, d)],
                    )
                } else {
                    (st, Seq::empty())
                },
                None => (st, Seq::empty()),
            }
        } else if k == "response.output_item.done"@ {
            let i = event_index(doc);
            if st.pending.dom().contains(i) {
                let p = st.pending[i];
                let args = match json_str_at(doc, "/item/arguments"@) {
                    Some(a) => a,
                    None => p.arguments,
                };
                (
                    ParserView { pending: st.pending.remove(i), saw_tool_call: true, ..st },
                    seq![
                        EventView::ToolUseComplete(
                            i,
                            p.call_id,
                            p.name,
                            if args.len() == 0 {
                                "{}"@
                            } else {
                                args
                            },
                        ),
                    ],
                )
            } else {
                (st, Seq::empty())
            }
        } else if k == "response.completed"@ || k == "response.done"@ || k
            == "response.incomplete"@ {
            finish_step(st, doc)
        } else if k == "response.failed"@ || k == "error"@ {
            fail_step(st, doc)
        } else {
            (st, Seq::empty())
        }
    }
}

/// The state of a stream that has not started.
pub open spec fn initial_view() -> ParserView {
    ParserView { pending: Map::empty(), saw_tool_call: false, finished: false }
}

/// What closing a stream does: a stream that ended without a terminal event
/// is closed with an error, so the caller never waits for a completion that
/// is not coming; a finished stream yields nothing.
pub open spec fn close_step(st: ParserView) -> (ParserView, Seq<EventView>) {
    if st.finished {
        (st, Seq::empty())
    } else {
        (
            ParserView { finished: true, ..st },
            seq![
                EventView::Error(
                    "incomplete_stream"@,
                    "the response stream ended before the model finished"@,
                ),
            ],
        )
    }
}

/// Whether entry `i` of `e` is for output index `k`.
pub open spec fn has_index_at(e: Seq<(usize, PendingToolCall)>, i: int, k: usize) -> bool {
    0 <= i < e.len() && e[i].0 == k
}

/// Whether no output index occurs twice.
pub open spec fn indices_unique(e: Seq<(usize, PendingToolCall)>) -> bool {
    forall|i: int, j: int| 0 <= i < j < e.len() ==> (#[trigger] e[i]).0 != (#[trigger] e[j]).0
}

/// The pending calls by output index.
pub open spec fn pending_map(e: Seq<(usize, PendingToolCall)>) -> Map<usize, PendingView> {
    Map::new(
        |k: usize| exists|i: int| has_index_at(e, i, k),
        |k: usize| pending_view(e[choose|i: int| has_index_at(e, i, k)].1),
    )
}

/// With unique indices, the map holds each entry's call.
proof fn lemma_pending_at(e: Seq<(usize, PendingToolCall)>, i: int)
    requires
        indices_unique(e),
        0 <= i < e.len(),
    ensures
        pending_map(e).dom().contains(e[i].0),
        pending_map(e)[e[i].0] == pending_view(e[i].1),
{
    assert(has_index_at(e, i, e[i].0));
    let j = choose|j: int| has_index_at(e, j, e[i].0);
    if j != i {
        if j < i {
            assert(e[j].0 != e[i].0);
        } else {
            assert(e[i].0 != e[j].0);
        }
    }
}

/// Parses Responses protocol events into [`StreamEvent`]s.
#[derive(Debug)]
pub struct ResponsesStreamParser {
    pending_calls: Vec<(usize, PendingToolCall)>,
    saw_tool_call: bool,
    finished: bool,
}

impl View for ResponsesStreamParser {
    type V = ParserView;

    closed spec fn view(&self) -> ParserView {
        ParserView {
            pending: pending_map(self.pending_calls@),
            saw_tool_call: self.saw_tool_call,
            finished: self.finished,
        }
    }
}

impl ResponsesStreamParser {
    /// The parser's invariant: no output index is tracked twice.
    pub closed spec fn wf(self) -> bool {
        indices_unique(self.pending_calls@)
    }

    /// Creates a parser for one response stream.
    pub fn new() -> (p: ResponsesStreamParser)
        ensures
            p.wf(),
            p@ == initial_view(),
    {
        let p = ResponsesStreamParser { pending_calls: Vec::new(), saw_tool_call: false, finished: false };
        assert(pending_map(p.pending_calls@) =~= Map::empty());
        p
    }

    /// Whether a terminal response event has been observed.
    pub fn is_finished(&self) -> (r: bool)
        ensures
            r == self@.finished,
    {
        self.finished
    }

    /// Where the call for output index `index` sits, if it is tracked.
    fn find(&self, index: usize) -> (r: Option<usize>)
        ensures
            match r {
                Some(i) => has_index_at(self.pending_calls@, i as int, index),
                None => forall|i: int| 0 <= i < self.pending_calls@.len() ==> self.pending_calls@[i].0 != index,
            },
    {
        let mut i: usize = 0;
        while i < self.pending_calls.len()
            invariant
                i <= self.pending_calls@.len(),
                forall|j: int| 0 <= j < i ==> self.pending_calls@[j].0 != index,
            decreases self.pending_calls@.len() - i,
        {
            if self.pending_calls[i].0 == index {
                return Some(i);
            }
            i = i + 1;
        }
        None
    }

    /// Tracks `call` at `index`, replacing any call already there.
    fn track(&mut self, index: usize, call: PendingToolCall)
        requires
            old(self).wf(),
        ensures
            final(self).wf(),
            final(self)@ == (ParserView { pending: old(self)@.pending.insert(index, pending_view(call)), ..old(self)@ }),
    {
        let ghost old_e = self.pending_calls@;
        let ghost cv = pending_view(call);
        match self.find(index) {
            Some(i) => {
                self.pending_calls.set(i, (index, call));
                proof {
                    let e = self.pending_calls@;
                    assert forall|a: int, b: int| 0 <= a < b < e.len() implies (#[trigger] e[a]).0 != (#[trigger] e[b]).0 by {
                        if a != i && b != i {
                            assert(old_e[a].0 != old_e[b].0);
                        } else if a == i {
                            assert(old_e[a].0 != old_e[b].0);
                        } else {
                            assert(old_e[a].0 != old_e[b].0);
                        }
                    }
                    let m = pending_map(old_e).insert(index, cv);
                    assert forall|k: usize| #[trigger] pending_map(e).dom().contains(k) == m.dom().contains(k) by {
                        if exists|j: int| has_index_at(old_e, j, k) {
                            let j = choose|j: int| has_index_at(old_e, j, k);
                            assert(has_index_at(e, j, k));
                        }
                        if exists|j: int| has_index_at(e, j, k) {
                            let j = choose|j: int| has_index_at(e, j, k);
                            assert(has_index_at(old_e, j, k));
                        }
                    }
                    assert forall|k: usize| #[trigger] pending_map(e).dom().contains(k) implies pending_map(e)[k] == m[k] by {
                        let j = choose|j: int| has_index_at(e, j, k);
                        lemma_pending_at(e, j);
                        if j != i {
                            assert(e[j] == old_e[j]);
                            lemma_pending_at(old_e, j);
                            assert(old_e[j].0 != old_e[i as int].0 || j == i);
                            if j < i {
                                assert(old_e[j].0 != old_e[i as int].0);
                            } else {
                                assert(old_e[i as int].0 != old_e[j].0);
                            }
                        }
                    }
                    assert(pending_map(e) =~= m);
                }
            },
            None => {
                self.pending_calls.push((index, call));
                proof {
                    let e = self.pending_calls@;
                    assert forall|a: int, b: int| 0 <= a < b < e.len() implies (#[trigger] e[a]).0 != (#[trigger] e[b]).0 by {
                        if b == old_e.len() {
                            assert(old_e[a].0 != index);
                        } else {
                            assert(old_e[a].0 != old_e[b].0);
                        }
                    }
                    let m = pending_map(old_e).insert(index, cv);
                    assert forall|k: usize| #[trigger] pending_map(e).dom().contains(k) == m.dom().contains(k) by {
                        if exists|j: int| has_index_at(old_e, j, k) {
                            let j = choose|j: int| has_index_at(old_e, j, k);
                            assert(has_index_at(e, j, k));
                        }
                        if k == index {
                            assert(has_index_at(e, old_e.len() as int, k));
                        }
                        if exists|j: int| has_index_at(e, j, k) {
                            let j = choose|j: int| has_index_at(e, j, k);
                            if j < old_e.len() {
                                assert(has_index_at(old_e, j, k));
                            }
                        }
                    }
                    assert forall|k: usize| #[trigger] pending_map(e).dom().contains(k) implies pending_map(e)[k] == m[k] by {
                        let j = choose|j: int| has_index_at(e, j, k);
                        lemma_pending_at(e, j);
                        if j < old_e.len() {
                            assert(e[j] == old_e[j]);
                            lemma_pending_at(old_e, j);
                        }
                    }
                    assert(pending_map(e) =~= m);
                }
            },
        }
    }

    /// Stops tracking the call at `index`, returning it.
    fn untrack(&mut self, index: usize) -> (r: Option<PendingToolCall>)
        requires
            old(self).wf(),
        ensures
            final(self).wf(),
            final(self)@ == (ParserView { pending: old(self)@.pending.remove(index), ..old(self)@ }),
            match r {
                Some(c) => old(self)@.pending.dom().contains(index) && old(self)@.pending[index]
                    == pending_view(c),
                None => !old(self)@.pending.dom().contains(index),
            },
    {
        let ghost old_e = self.pending_calls@;
        match self.find(index) {
            Some(i) => {
                proof {
                    lemma_pending_at(old_e, i as int);
                }
                let (_, call) = self.pending_calls.remove(i);
                proof {
                    let e = self.pending_calls@;
                    assert forall|j: int| 0 <= j < e.len() implies #[trigger] e[j] == (if j < i { old_e[j] } else { old_e[j + 1] }) by {}
                    assert forall|a: int, b: int| 0 <= a < b < e.len() implies (#[trigger] e[a]).0 != (#[trigger] e[b]).0 by {
                        if a < i && b >= i {
                            assert(old_e[a].0 != old_e[b + 1].0);
                        } else if a < i {
                            assert(old_e[a].0 != old_e[b].0);
                        } else {
                            assert(old_e[a + 1].0 != old_e[b + 1].0);
                        }
                    }
                    let m = pending_map(old_e).remove(index);
                    assert forall|k: usize| #[trigger] pending_map(e).dom().contains(k) == m.dom().contains(k) by {
                        if exists|j: int| has_index_at(e, j, k) {
                            let j = choose|j: int| has_index_at(e, j, k);
                            if j < i {
                                assert(has_index_at(old_e, j, k));
                                assert(old_e[j].0 != old_e[i as int].0);
                            } else {
                                assert(has_index_at(old_e, j + 1, k));
                                assert(old_e[i as int].0 != old_e[j + 1].0);
                            }
                        }
                        if m.dom().contains(k) {
                            let j = choose|j: int| has_index_at(old_e, j, k);
                            if j < i {
                                assert(has_index_at(e, j, k));
                            } else {
                                assert(j != i);
                                assert(has_index_at(e, j - 1, k));
                            }
                        }
                    }
                    assert forall|k: usize| #[trigger] pending_map(e).dom().contains(k) implies pending_map(e)[k] == m[k] by {
                        let j = choose|j: int| has_index_at(e, j, k);
                        lemma_pending_at(e, j);
                        if j < i {
                            lemma_pending_at(old_e, j);
                        } else {
                            lemma_pending_at(old_e, j + 1);
                        }
                    }
                    assert(pending_map(e) =~= m);
                }
                Some(call)
            },
            None => {
                proof {
                    assert(pending_map(old_e).remove(index) =~= pending_map(old_e));
                }
                None
            },
        }
    }

    /// Translates one Responses event payload into zero or more stream
    /// events.
    pub fn parse_event(&mut self, payload: &str) -> (r: Vec<StreamEvent>)
        requires
            old(self).wf(),
        ensures
            final(self).wf(),
            (final(self)@, events_view(r@)) == parse_step(old(self)@, encode_utf8(payload@)),
    {
        let ghost doc = encode_utf8(payload@);
        let ghost st = self@;
        if self.finished {
            let r = Vec::new();
            assert(events_view(r@) =~= Seq::<EventView>::empty());
            return r;
        }
        let bytes = payload.as_bytes();
        let kind = match json_string_at(bytes, "/type") {
            Some(kind) => kind,
            None => {
                let r = Vec::new();
                assert(events_view(r@) =~= Seq::<EventView>::empty());
                return r;
            },
        };
        let k = kind.as_str();
        let mut out: Vec<StreamEvent> = Vec::new();
        if str_eq(k, "response.output_text.delta") || str_eq(k, "response.refusal.delta") {
            if let Some(d) = json_string_at(bytes, "/delta") {
                out.push(StreamEvent::Text(d));
            }
            proof {
                assert(events_view(out@) =~= parse_step(st, doc).1);
            }
            return out;
        }
        if str_eq(k, "response.reasoning_summary_text.delta") || str_eq(
            k,
            "response.reasoning_text.delta",
        ) {
            if let Some(d) = json_string_at(bytes, "/delta") {
                out.push(StreamEvent::Reasoning(d));
            }
            proof {
                assert(events_view(out@) =~= parse_step(st, doc).1);
            }
            return out;
        }
        if str_eq(k, "response.output_item.added") {
            return self.start_item(bytes, Ghost(doc));
        }
        if str_eq(k, "response.function_call_arguments.delta") {
            return self.append_arguments(bytes, Ghost(doc));
        }
        if str_eq(k, "response.output_item.done") {
            return self.finish_item(bytes, Ghost(doc));
        }
        if str_eq(k, "response.completed") || str_eq(k, "response.done") || str_eq(
            k,
            "response.incomplete",
        ) {
            return self.finish_response(bytes, Ghost(doc));
        }
        if str_eq(k, "response.failed") || str_eq(k, "error") {
            return self.fail(bytes, Ghost(doc));
        }
        proof {
            assert(events_view(out@) =~= Seq::<EventView>::empty());
        }
        out
    }

    /// Begins tracking a tool call announced by the provider.
    fn start_item(&mut self, bytes: &[u8], Ghost(doc): Ghost<Seq<u8>>) -> (r: Vec<StreamEvent>)
        requires
            old(self).wf(),
            bytes@ == doc,
        ensures
            final(self).wf(),
            json_str_at(doc, "/item/type"@) == Some("function_call"@) ==> ({
                let i = event_index(doc);
                let id = text_or_empty(doc, "/item/call_id"@);
                let name = text_or_empty(doc, "/item/name"@);
                &&& final(self)@ == (ParserView {
                    pending: old(self)@.pending.insert(
                        i,
                        PendingView { call_id: id, name, arguments: text_or_empty(doc, "/item/arguments"@) },
                    ),
                    ..old(self)@
                })
                &&& events_view(r@) == seq![EventView::ToolUseStart(i, id, name)]
            }),
            json_str_at(doc, "/item/type"@) != Some("function_call"@) ==> final(self)@ == old(
                self,
            )@ && events_view(r@) == Seq::<EventView>::empty(),
    {
        let mut out: Vec<StreamEvent> = Vec::new();
        let is_call = match json_string_at(bytes, "/item/type") {
            Some(t) => str_eq(t.as_str(), "function_call"),
            None => false,
        };
        if !is_call {
            assert(events_view(out@) =~= Seq::<EventView>::empty());
            return out;
        }
        let index = output_index(bytes, Ghost(doc));
        let call_id = string_or_empty(bytes, "/item/call_id");
        let name = string_or_empty(bytes, "/item/name");
        let arguments = string_or_empty(bytes, "/item/arguments");
        self.track(
            index,
            PendingToolCall { call_id: call_id.clone(), name: name.clone(), arguments },
        );
        out.push(StreamEvent::ToolUseStart { index, id: call_id, name });
        assert(events_view(out@) =~= seq![
            EventView::ToolUseStart(index, text_or_empty(doc, "/item/call_id"@), text_or_empty(doc, "/item/name"@)),
        ]);
        out
    }

    /// Accumulates a chunk of a tool call's streaming arguments.
    fn append_arguments(&mut self, bytes: &[u8], Ghost(doc): Ghost<Seq<u8>>) -> (r: Vec<StreamEvent>)
        requires
            old(self).wf(),
            bytes@ == doc,
        ensures
            final(self).wf(),
            ({
                let i = event_index(doc);
                let st = old(self)@;
                match json_str_at(doc, "/delta"@) {
                    Some(d) => if st.pending.dom().contains(i) {
                        let p = st.pending[i];
                        final(self)@ == (ParserView {
                            pending: st.pending.insert(i, PendingView { arguments: p.arguments + d, ..p }),
                            ..st
                        }) && events_view(r@) == seq![EventView::ToolUseInputDelta(i, d)]
                    } else {
                        final(self)@ == st && events_view(r@) == Seq::<EventView>::empty()
                    },
                    None => final(self)@ == st && events_view(r@) == Seq::<EventView>::empty(),
                }
            }),
    {
        let mut out: Vec<StreamEvent> = Vec::new();
        let index = output_index(bytes, Ghost(doc));
        let delta = match json_string_at(bytes, "/delta") {
            Some(d) => d,
            None => {
                assert(events_view(out@) =~= Seq::<EventView>::empty());
                return out;
            },
        };
        let ghost st = self@;
        match self.untrack(index) {
            Some(call) => {
                let mut arguments = call.arguments.clone();
                arguments.append(delta.as_str());
                let updated = PendingToolCall { call_id: call.call_id, name: call.name, arguments };
                self.track(index, updated);
                proof {
                    assert(st.pending.remove(index).insert(index, pending_view(updated))
                        =~= st.pending.insert(index, pending_view(updated)));
                }
                out.push(StreamEvent::ToolUseInputDelta { index, partial_json: delta });
                assert(events_view(out@) =~= seq![EventView::ToolUseInputDelta(index, json_str_at(doc, "/delta"@)->Some_0)]);
                out
            },
            None => {
                proof {
                    assert(st.pending.remove(index) =~= st.pending);
                }
                assert(events_view(out@) =~= Seq::<EventView>::empty());
                out
            },
        }
    }

    /// Emits a completed tool call once the provider closes its output item.
    fn finish_item(&mut self, bytes: &[u8], Ghost(doc): Ghost<Seq<u8>>) -> (r: Vec<StreamEvent>)
        requires
            old(self).wf(),
            bytes@ == doc,
        ensures
            final(self).wf(),
            ({
                let i = event_index(doc);
                let st = old(self)@;
                if st.pending.dom().contains(i) {
                    let p = st.pending[i];
                    let args = match json_str_at(doc, "/item/arguments"@) {
                        Some(a) => a,
                        None => p.arguments,
                    };
                    final(self)@ == (ParserView { pending: st.pending.remove(i), saw_tool_call: true, ..st })
                        && events_view(r@) == seq![
                        EventView::ToolUseComplete(
                            i,
                            p.call_id,
                            p.name,
                            if args.len() == 0 {
                                "{}"@
                            } else {
                                args
                            },
                        ),
                    ]
                } else {
                    final(self)@ == st && events_view(r@) == Seq::<EventView>::empty()
                }
            }),
    {
        let mut out: Vec<StreamEvent> = Vec::new();
        let index = output_index(bytes, Ghost(doc));
        let call = match self.untrack(index) {
            Some(call) => call,
            None => {
                assert(events_view(out@) =~= Seq::<EventView>::empty());
                return out;
            },
        };
        let arguments = match json_string_at(bytes, "/item/arguments") {
            Some(a) => a,
            None => call.arguments,
        };
        self.saw_tool_call = true;
        let arguments = if arguments.as_str().is_empty() {
            "{}".to_owned()
        } else {
            arguments
        };
        out.push(
            StreamEvent::ToolUseComplete {
                index,
                tool_call: ToolCall { id: call.call_id, name: call.name, arguments },
            },
        );
        assert(events_view(out@) =~= seq![event_view(out@[0])]);
        out
    }

    /// Emits the terminal event for a response that completed.
    fn finish_response(&mut self, bytes: &[u8], Ghost(doc): Ghost<Seq<u8>>) -> (r: Vec<StreamEvent>)
        requires
            old(self).wf(),
            bytes@ == doc,
        ensures
            final(self).wf(),
            (final(self)@, events_view(r@)) == finish_step(old(self)@, doc),
    {
        let status = json_string_at(bytes, "/response/status");
        let reason = json_string_at(bytes, "/response/incomplete_details/reason");
        let kind = json_string_at(bytes, "/type");
        let incomplete = text_is(&status, "incomplete") || text_is(&kind, "response.incomplete");
        let reason_is_limit = text_is(&reason, "max_output_tokens");
        if text_is(&status, "failed") || text_is(&status, "cancelled") || (incomplete
            && !reason_is_limit) {
            return self.fail(bytes, Ghost(doc));
        }
        self.finished = true;
        let stop_reason = if incomplete {
            StopReason::Other("max_tokens".to_owned())
        } else if self.saw_tool_call {
            StopReason::ToolUse
        } else {
            StopReason::EndTurn
        };
        let usage = usage_from(bytes, Ghost(doc));
        let mut out: Vec<StreamEvent> = Vec::new();
        out.push(StreamEvent::Done { stop_reason, usage });
        assert(events_view(out@) =~= seq![event_view(out@[0])]);
        out
    }

    /// Emits an error event for a response the provider could not complete.
    fn fail(&mut self, bytes: &[u8], Ghost(doc): Ghost<Seq<u8>>) -> (r: Vec<StreamEvent>)
        requires
            old(self).wf(),
            bytes@ == doc,
        ensures
            final(self).wf(),
            (final(self)@, events_view(r@)) == fail_step(old(self)@, doc),
    {
        self.finished = true;
        let base: &str = if json_has_value_at(bytes, "/response/error") {
            "/response/error"
        } else if json_has_value_at(bytes, "/error") {
            "/error"
        } else {
            ""
        };
        proof {
            reveal_strlit("");
            assert(base@ == error_base(doc));
        }
        let error_type = match json_string_at(bytes, pointer_under(base, "/code").as_str()) {
            Some(code) => code,
            None => match json_string_at(bytes, pointer_under(base, "/type").as_str()) {
                Some(t) => t,
                None => "response_failed".to_owned(),
            },
        };
        let message = match json_string_at(bytes, pointer_under(base, "/message").as_str()) {
            Some(m) => m,
            None => match json_string_at(bytes, "/response/incomplete_details/reason") {
                Some(reason) => reason,
                None => "the provider did not complete the response".to_owned(),
            },
        };
        let mut out: Vec<StreamEvent> = Vec::new();
        out.push(StreamEvent::Error { error_type, message });
        assert(events_view(out@) =~= seq![event_view(out@[0])]);
        out
    }

    /// Produces the terminal event for a stream that ended without one.
    ///
    /// A dropped connection mid-response must still close the stream, or the
    /// caller waits forever for a completion that is never coming.
    pub fn finish_without_terminal_event(&mut self) -> (r: Vec<StreamEvent>)
        requires
            old(self).wf(),
        ensures
            final(self).wf(),
            (final(self)@, events_view(r@)) == close_step(old(self)@),
    {
        let mut out: Vec<StreamEvent> = Vec::new();
        if self.finished {
            assert(events_view(out@) =~= Seq::<EventView>::empty());
            return out;
        }
        self.finished = true;
        out.push(
            StreamEvent::Error {
                error_type: "incomplete_stream".to_owned(),
                message: "the response stream ended before the model finished".to_owned(),
            },
        );
        assert(events_view(out@) =~= seq![event_view(out@[0])]);
        out
    }
}

/// Whether an optional text is `s`.
fn text_is(o: &Option<String>, s: &str) -> (r: bool)
    ensures
        r == (opt_string_view(*o) == Some(s@)),
{
    match o {
        Some(v) => str_eq(v.as_str(), s),
        None => false,
    }
}

/// `base` followed by `suffix`, as a JSON Pointer.
fn pointer_under(base: &str, suffix: &str) -> (p: String)
    ensures
        p@ == base@ + suffix@,
{
    let mut p = base.to_owned();
    p.append(suffix);
    p
}

/// The text at `pointer`, or the empty text.
fn string_or_empty(bytes: &[u8], pointer: &str) -> (s: String)
    ensures
        s@ == text_or_empty(bytes@, pointer@),
{
    match json_string_at(bytes, pointer) {
        Some(s) => s,
        None => String::new(),
    }
}

/// The output index an event belongs to.
fn output_index(bytes: &[u8], Ghost(doc): Ghost<Seq<u8>>) -> (i: usize)
    requires
        bytes@ == doc,
    ensures
        i == event_index(doc),
{
    match json_u64_value_at(bytes, "/output_index") {
        Some(n) => n as usize,
        None => 0,
    }
}

/// The token usage a finished response reports.
fn usage_from(bytes: &[u8], Ghost(doc): Ghost<Seq<u8>>) -> (u: Option<StreamUsage>)
    requires
        bytes@ == doc,
    ensures
        u == usage_of(doc),
{
    if !json_has_value_at(bytes, "/response/usage") {
        return None;
    }
    Some(
        StreamUsage {
            prompt_tokens: json_u64_value_at(bytes, "/response/usage/input_tokens"),
            completion_tokens: json_u64_value_at(bytes, "/response/usage/output_tokens"),
            cached_tokens: json_u64_value_at(
                bytes,
                "/response/usage/input_tokens_details/cached_tokens",
            ),
        },
    )
}

/// Once a stream has finished, nothing more comes out of it: every further
/// payload, and closing it, yields no event and leaves it as it is.
pub proof fn lemma_finished_is_final(st: ParserView, doc: Seq<u8>)
    requires
        st.finished,
    ensures
        parse_step(st, doc) == (st, Seq::<EventView>::empty()),
        close_step(st) == (st, Seq::<EventView>::empty()),
{
}

/// Every event that ends a stream finishes the parser, so a stream carries at
/// most one terminal event, and a stream closed after its terminal event
/// needs no synthetic one.
pub proof fn lemma_terminal_events_finish(st: ParserView, doc: Seq<u8>)
    requires
        !st.finished,
    ensures
        (exists|i: int|
            0 <= i < parse_step(st, doc).1.len() && (parse_step(st, doc).1[i] is Done
                || parse_step(st, doc).1[i] is Error)) ==> parse_step(st, doc).0.finished,
        close_step(st).0.finished,
        close_step(close_step(st).0).1.len() == 0,
{
}

/// `response.done` is a completion, like `response.completed`: unless the
/// response reports a failed, cancelled or incomplete status, it ends the
/// turn with exactly one `Done` event (stopping for tool use when a tool
/// call completed during the response), never with an error.
pub proof fn lemma_done_completes_the_turn(st: ParserView, doc: Seq<u8>)
    requires
        !st.finished,
        json_str_at(doc, "/type"@) == Some("response.done"@),
        json_str_at(doc, "/response/status"@) != Some("failed"@),
        json_str_at(doc, "/response/status"@) != Some("cancelled"@),
        json_str_at(doc, "/response/status"@) != Some("incomplete"@),
    ensures
        parse_step(st, doc).0.finished,
        parse_step(st, doc).1.len() == 1,
        parse_step(st, doc).1[0] == EventView::Done(
            if st.saw_tool_call {
                StopView::ToolUse
            } else {
                StopView::EndTurn
            },
            usage_of(doc),
        ),
        !(parse_step(st, doc).1[0] is Error),
{
    reveal_strlit("response.done");
    reveal_strlit("response.incomplete");
    reveal_strlit("response.output_text.delta");
    reveal_strlit("response.refusal.delta");
    reveal_strlit("response.reasoning_summary_text.delta");
    reveal_strlit("response.reasoning_text.delta");
    reveal_strlit("response.output_item.added");
    reveal_strlit("response.function_call_arguments.delta");
    reveal_strlit("response.output_item.done");
    reveal_strlit("response.completed");
    let k = "response.done"@;
    assert(k.len() != "response.incomplete"@.len());
    assert(k.len() != "response.output_text.delta"@.len());
    assert(k.len() != "response.refusal.delta"@.len());
    assert(k.len() != "response.reasoning_summary_text.delta"@.len());
    assert(k.len() != "response.reasoning_text.delta"@.len());
    assert(k.len() != "response.output_item.added"@.len());
    assert(k.len() != "response.function_call_arguments.delta"@.len());
    assert(k.len() != "response.output_item.done"@.len());
    assert(!is_incomplete(doc));
    assert(!completion_fails(doc));
}

} // verus!
