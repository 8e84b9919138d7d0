//! Converting conversation history into Responses protocol input items.
//!
//! The Responses protocol takes a flat list of typed items: user and assistant
//! messages, the function calls an assistant made, and the outputs those calls
//! produced. Each message expands into one or more of those items, in order.
//! The system prompt is not among them: it travels as the request's
//! `instructions`.

use vstd::prelude::*;

use crate::codecs::{b64_standard, base64_standard_encode};
use crate::provider::stream::ToolCall;
use crate::text::{decimal, decimal_string};

verus! {

/// A file attached to a user message.
#[derive(Debug, Clone, PartialEq, Eq)]
pub struct Attachment {
    /// The attachment's media type, such as `image/png`.
    pub media_type: String,
    /// The raw bytes.
    pub data: Vec<u8>,
}

impl Attachment {
    /// An image attachment.
    pub fn image(media_type: &str, data: Vec<u8>) -> (a: Attachment)
        ensures
            a.media_type@ == media_type@,
            a.data@ == data@,
    {
        Attachment { media_type: media_type.to_owned(), data }
    }
}

/// One message of a conversation.
#[derive(Debug, Clone, PartialEq, Eq)]
pub enum LlmMessage {
    /// Something the user said, with any attachments.
    User {
        /// The text.
        content: String,
        /// Files sent along with the text.
        attachments: Vec<Attachment>,
    },
    /// A turn of the model: text, tool calls, or both.
    Assistant {
        /// The text (possibly empty).
        content: String,
        /// The tools the model called.
        tool_calls: Option<Vec<ToolCall>>,
    },
    /// The result of a tool call.
    Tool {
        /// The call this answers.
        tool_call_id: String,
        /// The tool's name.
        name: String,
        /// What the tool produced.
        content: String,
    },
}

/// One Responses protocol input item.
#[derive(Debug, Clone, PartialEq, Eq)]
pub enum InputItem {
    /// A user message: its text, then one image part per attachment, each a
    /// data URL.
    UserMessage {
        /// The text.
        text: String,
        /// The attachments, as data URLs.
        image_urls: Vec<String>,
    },
    /// A replayed assistant message.
    AssistantMessage {
        /// The synthetic id the protocol requires.
        id: String,
        /// The text.
        text: String,
    },
    /// A function call the assistant made.
    FunctionCall {
        /// The provider's call id.
        call_id: String,
        /// The tool's name.
        name: String,
        /// The arguments, as JSON text.
        arguments: String,
    },
    /// The output a function call produced.
    FunctionCallOutput {
        /// The call this answers.
        call_id: String,
        /// The output.
        output: String,
    },
}

/// An input item, by its text.
pub enum ItemView {
    /// See [`InputItem::UserMessage`]: text, image URLs.
    User(Seq<char>, Seq<Seq<char>>),
    /// See [`InputItem::AssistantMessage`]: id, text.
    Assistant(Seq<char>, Seq<char>),
    /// See [`InputItem::FunctionCall`]: call id, name, arguments.
    Call(Seq<char>, Seq<char>, Seq<char>),
    /// See [`InputItem::FunctionCallOutput`]: call id, output.
    Output(Seq<char>, Seq<char>),
}

/// The text of an item.
pub open spec fn item_view(i: InputItem) -> ItemView {
    match i {
        InputItem::UserMessage { text, image_urls } => ItemView::User(
            text@,
            image_urls@.map_values(|u: String| u@),
        ),
        InputItem::AssistantMessage { id, text } => ItemView::Assistant(id@, text@),
        InputItem::FunctionCall { call_id, name, arguments } => ItemView::Call(
            call_id@,
            name@,
            arguments@,
        ),
        InputItem::FunctionCallOutput { call_id, output } => ItemView::Output(call_id@, output@),
    }
}

/// The text of a list of items.
pub open spec fn items_view(v: Seq<InputItem>) -> Seq<ItemView> {
    v.map_values(|i: InputItem| item_view(i))
}

/// An attachment as a data URL: `data:{media type};base64,{standard base64}`.
pub open spec fn data_url_of(a: Attachment) -> Seq<char> {
    "data:"@ + a.media_type@ + ";base64,"@ + b64_standard(a.data@)
}

/// The id of the assistant message at position `index` of the history: the
/// protocol wants one, and jinn keeps none from the provider, so it is
/// derived from the position.
pub open spec fn assistant_id(index: nat) -> Seq<char> {
    "msg_jinn_"@ + decimal(index)
}

/// The function-call items of a list of tool calls, in order.
pub open spec fn call_items(calls: Seq<ToolCall>) -> Seq<ItemView> {
    calls.map_values(|c: ToolCall| ItemView::Call(c.id@, c.name@, c.arguments@))
}

/// The items the message at position `index` expands into: a user message
/// with its attachments; an assistant's text (when there is any) followed by
/// its calls; a tool result.
pub open spec fn message_items(m: LlmMessage, index: nat) -> Seq<ItemView> {
    match m {
        LlmMessage::User { content, attachments } => seq![
            ItemView::User(content@, attachments@.map_values(|a: Attachment| data_url_of(a))),
        ],
        LlmMessage::Assistant { content, tool_calls } => (if content@.len() > 0 {
            seq![ItemView::Assistant(assistant_id(index), content@)]
        } else {
            Seq::empty()
        }) + match tool_calls {
            Some(calls) => call_items(calls@),
            None => Seq::empty(),
        },
        LlmMessage::Tool { tool_call_id, content, .. } => seq![
            ItemView::Output(tool_call_id@, content@),
        ],
    }
}

/// The items of a whole history, message by message.
pub open spec fn history_items(messages: Seq<LlmMessage>) -> Seq<ItemView>
    decreases messages.len(),
{
    if messages.len() == 0 {
        Seq::empty()
    } else {
        history_items(messages.drop_last()) + message_items(
            messages.last(),
            (messages.len() - 1) as nat,
        )
    }
}

/// Renders an attachment as a base64 data URL.
pub fn data_url(attachment: &Attachment) -> (s: String)
    ensures
        s@ == data_url_of(*attachment),
{
    let mut s = "data:".to_owned();
    s.append(attachment.media_type.as_str());
    s.append(";base64,");
    let encoded = base64_standard_encode(attachment.data.as_slice());
    s.append(encoded.as_str());
    s
}

/// Builds a user input item, carrying any attachments alongside the text.
fn user_item(content: &String, attachments: &Vec<Attachment>) -> (i: InputItem)
    ensures
        item_view(i) == ItemView::User(
            content@,
            attachments@.map_values(|a: Attachment| data_url_of(a)),
        ),
{
    let mut image_urls: Vec<String> = Vec::new();
    let mut k: usize = 0;
    while k < attachments.len()
        invariant
            k <= attachments@.len(),
            image_urls@.map_values(|u: String| u@) == attachments@.take(k as int).map_values(
                |a: Attachment| data_url_of(a),
            ),
        decreases attachments@.len() - k,
    {
        let url = data_url(&attachments[k]);
        let ghost prev = image_urls@;
        let ghost url_text = url@;
        image_urls.push(url);
        proof {
            assert(image_urls@.map_values(|u: String| u@) =~= prev.map_values(|u: String| u@).push(
                url_text,
            ));
            assert(attachments@.take(k + 1) =~= attachments@.take(k as int).push(attachments@[k as int]));
            assert(attachments@.take(k + 1).map_values(|a: Attachment| data_url_of(a))
                =~= attachments@.take(k as int).map_values(|a: Attachment| data_url_of(a)).push(
                data_url_of(attachments@[k as int]),
            ));
            assert(image_urls@.map_values(|u: String| u@) =~= attachments@.take(k + 1).map_values(
                |a: Attachment| data_url_of(a),
            ));
        }
        k = k + 1;
    }
    proof {
        assert(attachments@.take(k as int) =~= attachments@);
    }
    InputItem::UserMessage { text: content.clone(), image_urls }
}

/// Builds the replayed assistant message at position `index`.
fn assistant_item(content: &String, index: usize) -> (i: InputItem)
    ensures
        item_view(i) == ItemView::Assistant(assistant_id(index as nat), content@),
{
    let mut id = "msg_jinn_".to_owned();
    let digits = decimal_string(index as u64);
    id.append(digits.as_str());
    InputItem::AssistantMessage { id, text: content.clone() }
}

/// Converts conversation history into Responses input items.
pub fn build_input_items(messages: &[LlmMessage]) -> (items: Vec<InputItem>)
    ensures
        items_view(items@) == history_items(messages@),
{
    let mut items: Vec<InputItem> = Vec::new();
    let mut index: usize = 0;
    while index < messages.len()
        invariant
            index <= messages@.len(),
            items_view(items@) == history_items(messages@.take(index as int)),
        decreases messages@.len() - index,
    {
        let ghost before = items@;
        proof {
            let t = messages@.take(index + 1);
            assert(t.drop_last() =~= messages@.take(index as int));
            assert(t.last() == messages@[index as int]);
            assert(history_items(t) == history_items(messages@.take(index as int)) + message_items(
                messages@[index as int],
                index as nat,
            ));
        }
        match &messages[index] {
            LlmMessage::User { content, attachments } => {
                items.push(user_item(content, attachments));
                proof {
                    assert(items_view(items@) =~= items_view(before) + message_items(
                        messages@[index as int],
                        index as nat,
                    ));
                }
            },
            LlmMessage::Assistant { content, tool_calls } => {
                if !content.as_str().is_empty() {
                    items.push(assistant_item(content, index));
                }
                let ghost head = items@;
                proof {
                    assert(items_view(head) =~= items_view(before) + (if content@.len() > 0 {
                        seq![ItemView::Assistant(assistant_id(index as nat), content@)]
                    } else {
                        Seq::empty()
                    }));
                }
                match tool_calls {
                    Some(calls) => {
                        let mut k: usize = 0;
                        while k < calls.len()
                            invariant
                                k <= calls@.len(),
                                items_view(items@) == items_view(head) + call_items(
                                    calls@.take(k as int),
                                ),
                            decreases calls@.len() - k,
                        {
                            let call = &calls[k];
                            let ghost prev = items@;
                            items.push(
                                InputItem::FunctionCall {
                                    call_id: call.id.clone(),
                                    name: call.name.clone(),
                                    arguments: call.arguments.clone(),
                                },
                            );
                            proof {
                                assert(calls@.take(k + 1) =~= calls@.take(k as int).push(
                                    calls@[k as int],
                                ));
                                assert(items_view(items@) =~= items_view(prev).push(
                                    ItemView::Call(call.id@, call.name@, call.arguments@),
                                ));
                                assert(call_items(calls@.take(k + 1)) =~= call_items(
                                    calls@.take(k as int),
                                ).push(ItemView::Call(call.id@, call.name@, call.arguments@)));
                                assert(items_view(items@) =~= items_view(head) + call_items(
                                    calls@.take(k + 1),
                                ));
                            }
                            k = k + 1;
                        }
                        proof {
                            assert(calls@.take(k as int) =~= calls@);
                        }
                    },
                    None => {
                        assert(items_view(items@) =~= items_view(head) + Seq::<ItemView>::empty());
                    },
                }
                proof {
                    assert(items_view(items@) =~= items_view(before) + message_items(
                        messages@[index as int],
                        index as nat,
                    ));
                }
            },
            LlmMessage::Tool { tool_call_id, content, .. } => {
                items.push(
                    InputItem::FunctionCallOutput {
                        call_id: tool_call_id.clone(),
                        output: content.clone(),
                    },
                );
                proof {
                    assert(items_view(items@) =~= items_view(before) + message_items(
                        messages@[index as int],
                        index as nat,
                    ));
                }
            },
        }
        index = index + 1;
    }
    proof {
        assert(messages@.take(index as int) =~= messages@);
    }
    items
}

/// How many function-call items a list of items holds.
pub open spec fn call_count(items: Seq<ItemView>) -> nat
    decreases items.len(),
{
    if items.len() == 0 {
        0
    } else {
        call_count(items.drop_last()) + if items.last() is Call {
            1nat
        } else {
            0nat
        }
    }
}

/// How many tool calls the assistant turns of a history made.
pub open spec fn tool_call_total(messages: Seq<LlmMessage>) -> nat
    decreases messages.len(),
{
    if messages.len() == 0 {
        0
    } else {
        tool_call_total(messages.drop_last()) + match messages.last() {
            LlmMessage::Assistant { tool_calls: Some(calls), .. } => calls@.len(),
            _ => 0nat,
        }
    }
}

/// Counting calls distributes over concatenation.
proof fn lemma_call_count_append(a: Seq<ItemView>, b: Seq<ItemView>)
    ensures
        call_count(a + b) == call_count(a) + call_count(b),
    decreases b.len(),
{
    if b.len() == 0 {
        assert(a + b =~= a);
    } else {
        lemma_call_count_append(a, b.drop_last());
        assert((a + b).drop_last() =~= a + b.drop_last());
    }
}

/// A list of items that are all function calls counts each of them.
proof fn lemma_call_count_all_calls(items: Seq<ItemView>)
    requires
        forall|i: int| 0 <= i < items.len() ==> #[trigger] items[i] is Call,
    ensures
        call_count(items) == items.len(),
    decreases items.len(),
{
    if items.len() > 0 {
        lemma_call_count_all_calls(items.drop_last());
    }
}

/// An assistant turn's items end with one function-call item per tool call,
/// in order, each carrying that call's id, name and arguments; at most one
/// item (its text) comes before them.
pub proof fn lemma_assistant_calls_end_its_items(
    content: String,
    calls: Vec<ToolCall>,
    index: nat,
)
    ensures
        ({
            let items = message_items(
                LlmMessage::Assistant { content, tool_calls: Some(calls) },
                index,
            );
            &&& calls@.len() <= items.len() <= calls@.len() + 1
            &&& forall|i: int|
                0 <= i < calls@.len() ==> #[trigger] items[items.len() - calls@.len() + i]
                    == ItemView::Call(calls@[i].id@, calls@[i].name@, calls@[i].arguments@)
            &&& call_count(items) == calls@.len()
        }),
{
    let head: Seq<ItemView> = if content@.len() > 0 {
        seq![ItemView::Assistant(assistant_id(index), content@)]
    } else {
        Seq::empty()
    };
    let tail = call_items(calls@);
    lemma_call_count_append(head, tail);
    lemma_call_count_all_calls(tail);
    if content@.len() > 0 {
        assert(call_count(head) == 0) by {
            assert(head.drop_last() =~= Seq::<ItemView>::empty());
            assert(call_count(Seq::<ItemView>::empty()) == 0);
        }
    }
}

/// Every tool call of the history is sent: the items of a history hold
/// exactly as many function calls as its assistant turns made, so every
/// later tool result has its call.
pub proof fn lemma_every_tool_call_is_sent(messages: Seq<LlmMessage>)
    ensures
        call_count(history_items(messages)) == tool_call_total(messages),
    decreases messages.len(),
{
    if messages.len() > 0 {
        let rest = messages.drop_last();
        let m = messages.last();
        let index = (messages.len() - 1) as nat;
        lemma_every_tool_call_is_sent(rest);
        assert(call_count(Seq::<ItemView>::empty()) == 0);
        assert(history_items(messages) == history_items(rest) + message_items(m, index));
        lemma_call_count_append(history_items(rest), message_items(m, index));
        match m {
            LlmMessage::User { content, attachments } => {
                let one = message_items(m, index);
                assert(one.drop_last() =~= Seq::<ItemView>::empty());
            },
            LlmMessage::Assistant { content, tool_calls } => {
                match tool_calls {
                    Some(calls) => {
                        lemma_assistant_calls_end_its_items(content, calls, index);
                    },
                    None => {
                        let one = message_items(m, index);
                        if content@.len() > 0 {
                            assert(one.drop_last() =~= Seq::<ItemView>::empty());
                        } else {
                            assert(one =~= Seq::<ItemView>::empty());
                        }
                    },
                }
            },
            LlmMessage::Tool { .. } => {
                let one = message_items(m, index);
                assert(one.drop_last() =~= Seq::<ItemView>::empty());
            },
        }
    }
}

/// A tool the model may call.
#[derive(Debug, Clone, PartialEq, Eq)]
pub struct ToolDefinition {
    /// The tool's name.
    pub name: String,
    /// What the tool does, for the model.
    pub description: String,
    /// The JSON schema of the tool's arguments, as JSON text.
    pub parameters: String,
    /// The kind of provider-side tool this is, when the provider runs it
    /// itself rather than jinn.
    pub server_tool_type: Option<String>,
}

/// A function tool declaration of the Responses protocol (never strict).
#[derive(Debug, Clone, PartialEq, Eq)]
pub struct FunctionTool {
    /// The tool's name.
    pub name: String,
    /// What the tool does.
    pub description: String,
    /// The JSON schema of its arguments, as JSON text.
    pub parameters: String,
}

/// The declarations of the tools jinn runs itself, in order: name,
/// description, parameters.
pub open spec fn declared_tools(tools: Seq<ToolDefinition>) -> Seq<(Seq<char>, Seq<char>, Seq<char>)>
    decreases tools.len(),
{
    if tools.len() == 0 {
        Seq::empty()
    } else {
        let rest = declared_tools(tools.drop_last());
        let t = tools.last();
        if t.server_tool_type is None {
            rest.push((t.name@, t.description@, t.parameters@))
        } else {
            rest
        }
    }
}

/// The text of a list of declarations.
pub open spec fn function_tools_view(v: Seq<FunctionTool>) -> Seq<(Seq<char>, Seq<char>, Seq<char>)> {
    v.map_values(|f: FunctionTool| (f.name@, f.description@, f.parameters@))
}

/// Converts tool definitions into Responses protocol tool declarations.
///
/// Server-side tools have no Responses equivalent in this backend and are
/// dropped: sending them would make the provider reject the whole request.
pub fn build_tools(tools: &[ToolDefinition]) -> (r: Vec<FunctionTool>)
    ensures
        function_tools_view(r@) == declared_tools(tools@),
{
    let mut declared: Vec<FunctionTool> = Vec::new();
    let mut i: usize = 0;
    while i < tools.len()
        invariant
            i <= tools@.len(),
            function_tools_view(declared@) == declared_tools(tools@.take(i as int)),
        decreases tools@.len() - i,
    {
        let tool = &tools[i];
        proof {
            let t = tools@.take(i + 1);
            assert(t.drop_last() =~= tools@.take(i as int));
            assert(t.last() == tools@[i as int]);
        }
        if tool.server_tool_type.is_none() {
            declared.push(
                FunctionTool {
                    name: tool.name.clone(),
                    description: tool.description.clone(),
                    parameters: tool.parameters.clone(),
                },
            );
            proof {
                assert(function_tools_view(declared@) =~= declared_tools(tools@.take(i + 1)));
            }
        }
        i = i + 1;
    }
    proof {
        assert(tools@.take(i as int) =~= tools@);
    }
    declared
}

} // verus!
