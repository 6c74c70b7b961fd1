//! Model capability records and the chat request / response data model.
use vstd::prelude::*;

use crate::text::{ascii_lower, seq_contains, str_contains, to_ascii_lowercase};

verus! {

/// Context window of the DeepSeek V4 family, in tokens.
pub const DEEPSEEK_V4_CONTEXT_WINDOW_TOKENS: u32 = 1_000_000;

/// Context window of the legacy DeepSeek chat models, in tokens.
pub const LEGACY_DEEPSEEK_CONTEXT_WINDOW_TOKENS: u32 = 128_000;

/// What a model is known to support; `None` means "not stated here".
#[derive(Clone, Copy, Debug, PartialEq, Eq, Structural)]
pub struct ModelCapabilities {
    pub thinking_supported: Option<bool>,
    pub supports_tools: Option<bool>,
    pub supports_reasoning: Option<bool>,
    pub supports_vision: Option<bool>,
    pub supports_streaming: Option<bool>,
    pub supports_embedding: Option<bool>,
    pub context_window: Option<u32>,
    pub max_output: Option<u32>,
    pub cache_telemetry_supported: Option<bool>,
}

/// `Option::or`: the first value when present, else the second.
pub open spec fn opt_or<T>(a: Option<T>, b: Option<T>) -> Option<T> {
    match a {
        Some(x) => Some(x),
        None => b,
    }
}

/// The record with every field unstated.
pub open spec fn caps_none() -> ModelCapabilities {
    ModelCapabilities {
        thinking_supported: None,
        supports_tools: None,
        supports_reasoning: None,
        supports_vision: None,
        supports_streaming: None,
        supports_embedding: None,
        context_window: None,
        max_output: None,
        cache_telemetry_supported: None,
    }
}

/// Field-wise: the value of `c` where it states one, else that of `d`.
pub open spec fn merge_caps(c: ModelCapabilities, d: ModelCapabilities) -> ModelCapabilities {
    ModelCapabilities {
        thinking_supported: opt_or(c.thinking_supported, d.thinking_supported),
        supports_tools: opt_or(c.supports_tools, d.supports_tools),
        supports_reasoning: opt_or(c.supports_reasoning, d.supports_reasoning),
        supports_vision: opt_or(c.supports_vision, d.supports_vision),
        supports_streaming: opt_or(c.supports_streaming, d.supports_streaming),
        supports_embedding: opt_or(c.supports_embedding, d.supports_embedding),
        context_window: opt_or(c.context_window, d.context_window),
        max_output: opt_or(c.max_output, d.max_output),
        cache_telemetry_supported: opt_or(c.cache_telemetry_supported, d.cache_telemetry_supported),
    }
}

fn or_bool(a: Option<bool>, b: Option<bool>) -> (r: Option<bool>)
    ensures
        r == opt_or(a, b),
{
    match a {
        Some(x) => Some(x),
        None => b,
    }
}

fn or_u32(a: Option<u32>, b: Option<u32>) -> (r: Option<u32>)
    ensures
        r == opt_or(a, b),
{
    match a {
        Some(x) => Some(x),
        None => b,
    }
}

impl Default for ModelCapabilities {
    fn default() -> (r: Self)
        ensures
            r == caps_none(),
    {
        ModelCapabilities {
            thinking_supported: None,
            supports_tools: None,
            supports_reasoning: None,
            supports_vision: None,
            supports_streaming: None,
            supports_embedding: None,
            context_window: None,
            max_output: None,
            cache_telemetry_supported: None,
        }
    }
}

impl ModelCapabilities {
    /// Fills every field this record leaves unstated from `defaults`.
    pub fn merge_with_defaults(&self, defaults: &ModelCapabilities) -> (r: ModelCapabilities)
        ensures
            r == merge_caps(*self, *defaults),
    {
        ModelCapabilities {
            thinking_supported: or_bool(self.thinking_supported, defaults.thinking_supported),
            supports_tools: or_bool(self.supports_tools, defaults.supports_tools),
            supports_reasoning: or_bool(self.supports_reasoning, defaults.supports_reasoning),
            supports_vision: or_bool(self.supports_vision, defaults.supports_vision),
            supports_streaming: or_bool(self.supports_streaming, defaults.supports_streaming),
            supports_embedding: or_bool(self.supports_embedding, defaults.supports_embedding),
            context_window: or_u32(self.context_window, defaults.context_window),
            max_output: or_u32(self.max_output, defaults.max_output),
            cache_telemetry_supported: or_bool(
                self.cache_telemetry_supported,
                defaults.cache_telemetry_supported,
            ),
        }
    }
}

/// Merging is associative: folding three tiers left or right gives one result.
pub proof fn merge_caps_associative(a: ModelCapabilities, b: ModelCapabilities, c: ModelCapabilities)
    ensures
        merge_caps(merge_caps(a, b), c) == merge_caps(a, merge_caps(b, c)),
{
}

/// The record with nothing stated is a neutral element of merging, on both sides.
pub proof fn merge_caps_identity(a: ModelCapabilities)
    ensures
        merge_caps(a, caps_none()) == a,
        merge_caps(caps_none(), a) == a,
{
}

/// Merging a record with itself changes nothing; merging twice with the same
/// defaults is the same as merging once.
pub proof fn merge_caps_idempotent(a: ModelCapabilities, d: ModelCapabilities)
    ensures
        merge_caps(a, a) == a,
        merge_caps(merge_caps(a, d), d) == merge_caps(a, d),
{
}

/// The context window known for a model id outside the DeepSeek pattern table.
pub open spec fn spec_context_window_for_model(model: Seq<char>) -> Option<u32> {
    let m = ascii_lower(model);
    if seq_contains(m, "deepseek-v4"@) {
        Some(DEEPSEEK_V4_CONTEXT_WINDOW_TOKENS)
    } else if seq_contains(m, "deepseek"@) {
        Some(LEGACY_DEEPSEEK_CONTEXT_WINDOW_TOKENS)
    } else {
        None
    }
}

pub fn context_window_for_model(model: &str) -> (r: Option<u32>)
    ensures
        r == spec_context_window_for_model(model@),
{
    let m = to_ascii_lowercase(model);
    if str_contains(m.as_str(), "deepseek-v4") {
        Some(DEEPSEEK_V4_CONTEXT_WINDOW_TOKENS)
    } else if str_contains(m.as_str(), "deepseek") {
        Some(LEGACY_DEEPSEEK_CONTEXT_WINDOW_TOKENS)
    } else {
        None
    }
}


/// A JSON value, carried through unchanged.
#[verifier::external_type_specification]
#[verifier::external_body]
pub struct ExJsonValue(serde_json::Value);

/// `serde_json::Value::clone` (a derived `Clone`): the copy is the same value.
pub assume_specification[ <serde_json::Value as Clone>::clone ](v: &serde_json::Value) -> (r:
    serde_json::Value)
    ensures
        r == *v,
;

/// Prompt-caching directive attached to a block.
#[derive(Clone, Debug)]
pub struct CacheControl {
    pub cache_type: String,
}

/// One block of a structured system prompt.
#[derive(Clone, Debug)]
pub struct SystemBlock {
    pub block_type: String,
    pub text: String,
    pub cache_control: Option<CacheControl>,
}

#[derive(Clone, Debug)]
pub enum SystemPrompt {
    Text(String),
    Blocks(Vec<SystemBlock>),
}

/// One block of message content.
#[derive(Clone, Debug)]
pub enum ContentBlock {
    Text { text: String, cache_control: Option<CacheControl> },
    Thinking { thinking: String },
    ToolUse { id: String, name: String, input: serde_json::Value, caller: Option<String> },
    ToolResult { tool_use_id: String, content: String, is_error: Option<bool> },
}

#[derive(Clone, Debug)]
pub struct Message {
    pub role: String,
    pub content: Vec<ContentBlock>,
}

/// A tool the model may call.
#[derive(Clone, Debug)]
pub struct Tool {
    pub tool_type: Option<String>,
    pub name: String,
    pub description: String,
    pub input_schema: serde_json::Value,
    pub allowed_callers: Option<Vec<String>>,
    pub defer_loading: Option<bool>,
    pub input_examples: Option<Vec<serde_json::Value>>,
    pub strict: Option<bool>,
    pub cache_control: Option<CacheControl>,
}

/// A chat request in the client's own (Anthropic-shaped) form.
/// `temperature` and `top_p` hold the bit patterns of `f32` values.
#[derive(Clone, Debug)]
pub struct MessageRequest {
    pub model: String,
    pub messages: Vec<Message>,
    pub max_tokens: u32,
    pub system: Option<SystemPrompt>,
    pub tools: Option<Vec<Tool>>,
    pub tool_choice: Option<serde_json::Value>,
    pub metadata: Option<serde_json::Value>,
    pub thinking: Option<serde_json::Value>,
    pub reasoning_effort: Option<String>,
    pub stream: Option<bool>,
    pub temperature: Option<u32>,
    pub top_p: Option<u32>,
}

/// Token accounting of one response.
#[derive(Clone, Copy, Debug, PartialEq, Eq, Structural)]
pub struct Usage {
    pub input_tokens: u32,
    pub output_tokens: u32,
}

impl Default for Usage {
    fn default() -> (r: Self)
        ensures
            r.input_tokens == 0,
            r.output_tokens == 0,
    {
        Usage { input_tokens: 0, output_tokens: 0 }
    }
}

/// A complete (non-streamed) model response.
#[derive(Clone, Debug)]
pub struct MessageResponse {
    pub id: String,
    pub message_type: String,
    pub role: String,
    pub content: Vec<ContentBlock>,
    pub model: String,
    pub stop_reason: Option<String>,
    pub stop_sequence: Option<String>,
    pub container: Option<serde_json::Value>,
    pub usage: Usage,
}


/// `Option<String>` taken by its characters.
pub open spec fn opt_chars(o: Option<String>) -> Option<Seq<char>> {
    match o {
        Some(s) => Some(s@),
        None => None,
    }
}

/// A content block as mathematical data.
pub enum BlockView {
    Text { text: Seq<char>, cache_control: Option<Seq<char>> },
    Thinking { thinking: Seq<char> },
    ToolUse { id: Seq<char>, name: Seq<char>, input: serde_json::Value, caller: Option<Seq<char>> },
    ToolResult { tool_use_id: Seq<char>, content: Seq<char>, is_error: Option<bool> },
}

impl View for ContentBlock {
    type V = BlockView;

    open spec fn view(&self) -> BlockView {
        match self {
            ContentBlock::Text { text, cache_control } => BlockView::Text {
                text: text@,
                cache_control: match cache_control {
                    Some(c) => Some(c.cache_type@),
                    None => None,
                },
            },
            ContentBlock::Thinking { thinking } => BlockView::Thinking { thinking: thinking@ },
            ContentBlock::ToolUse { id, name, input, caller } => BlockView::ToolUse {
                id: id@,
                name: name@,
                input: *input,
                caller: opt_chars(*caller),
            },
            ContentBlock::ToolResult { tool_use_id, content, is_error } => BlockView::ToolResult {
                tool_use_id: tool_use_id@,
                content: content@,
                is_error: *is_error,
            },
        }
    }
}

/// The blocks of a content list, by their views.
pub open spec fn blocks_view(v: Seq<ContentBlock>) -> Seq<BlockView> {
    v.map_values(|b: ContentBlock| b@)
}

/// A complete response as mathematical data.
pub struct ResponseView {
    pub id: Seq<char>,
    pub message_type: Seq<char>,
    pub role: Seq<char>,
    pub content: Seq<BlockView>,
    pub model: Seq<char>,
    pub stop_reason: Option<Seq<char>>,
    pub stop_sequence: Option<Seq<char>>,
    pub container: Option<serde_json::Value>,
    pub usage: Usage,
}

impl View for MessageResponse {
    type V = ResponseView;

    open spec fn view(&self) -> ResponseView {
        ResponseView {
            id: self.id@,
            message_type: self.message_type@,
            role: self.role@,
            content: blocks_view(self.content@),
            model: self.model@,
            stop_reason: opt_chars(self.stop_reason),
            stop_sequence: opt_chars(self.stop_sequence),
            container: self.container,
            usage: self.usage,
        }
    }
}

/// The head of a content block as it starts streaming.
#[derive(Clone, Debug)]
pub enum ContentBlockStart {
    Text { text: String },
    Thinking { thinking: String },
    ToolUse { id: String, name: String, input: serde_json::Value, caller: Option<String> },
}

/// An increment to a streaming content block.
#[derive(Clone, Debug)]
pub enum Delta {
    TextDelta { text: String },
    ThinkingDelta { thinking: String },
    InputJsonDelta { partial_json: String },
}

/// The closing fields of a streamed message.
#[derive(Clone, Debug)]
pub struct MessageDelta {
    pub stop_reason: Option<String>,
    pub stop_sequence: Option<String>,
}

/// One event of a streamed response.
#[derive(Clone, Debug)]
pub enum StreamEvent {
    MessageStart { message: MessageResponse },
    ContentBlockStart { index: u32, content_block: ContentBlockStart },
    ContentBlockDelta { index: u32, delta: Delta },
    ContentBlockStop { index: u32 },
    MessageDelta { delta: MessageDelta, usage: Option<Usage> },
    MessageStop,
}

pub enum StartView {
    Text(Seq<char>),
    Thinking(Seq<char>),
    ToolUse(Seq<char>, Seq<char>, serde_json::Value, Option<Seq<char>>),
}

pub enum DeltaView {
    Text(Seq<char>),
    Thinking(Seq<char>),
    InputJson(Seq<char>),
}

/// A stream event as mathematical data.
pub enum EventView {
    MessageStart(ResponseView),
    BlockStart(u32, StartView),
    BlockDelta(u32, DeltaView),
    BlockStop(u32),
    MessageDelta(Option<Seq<char>>, Option<Seq<char>>, Option<Usage>),
    MessageStop,
}

impl View for StreamEvent {
    type V = EventView;

    open spec fn view(&self) -> EventView {
        match self {
            StreamEvent::MessageStart { message } => EventView::MessageStart(message@),
            StreamEvent::ContentBlockStart { index, content_block } => EventView::BlockStart(
                *index,
                match content_block {
                    ContentBlockStart::Text { text } => StartView::Text(text@),
                    ContentBlockStart::Thinking { thinking } => StartView::Thinking(thinking@),
                    ContentBlockStart::ToolUse { id, name, input, caller } => StartView::ToolUse(
                        id@,
                        name@,
                        *input,
                        opt_chars(*caller),
                    ),
                },
            ),
            StreamEvent::ContentBlockDelta { index, delta } => EventView::BlockDelta(
                *index,
                match delta {
                    Delta::TextDelta { text } => DeltaView::Text(text@),
                    Delta::ThinkingDelta { thinking } => DeltaView::Thinking(thinking@),
                    Delta::InputJsonDelta { partial_json } => DeltaView::InputJson(partial_json@),
                },
            ),
            StreamEvent::ContentBlockStop { index } => EventView::BlockStop(*index),
            StreamEvent::MessageDelta { delta, usage } => EventView::MessageDelta(
                opt_chars(delta.stop_reason),
                opt_chars(delta.stop_sequence),
                *usage,
            ),
            StreamEvent::MessageStop => EventView::MessageStop,
        }
    }
}

/// The events of a list, by their views.
pub open spec fn events_view(v: Seq<StreamEvent>) -> Seq<EventView> {
    v.map_values(|e: StreamEvent| e@)
}

/// The message that opens a stream: empty, from the assistant, for `model`.
pub open spec fn stream_start_view(model: Seq<char>) -> ResponseView {
    ResponseView {
        id: Seq::empty(),
        message_type: "message"@,
        role: "assistant"@,
        content: Seq::empty(),
        model,
        stop_reason: None,
        stop_sequence: None,
        container: None,
        usage: Usage { input_tokens: 0, output_tokens: 0 },
    }
}

/// The `MessageStart` event that opens every stream.
pub fn stream_start_event(model: &str) -> (r: StreamEvent)
    ensures
        r@ == EventView::MessageStart(stream_start_view(model@)),
{
    let message = MessageResponse {
        id: String::new(),
        message_type: "message".to_owned(),
        role: "assistant".to_owned(),
        content: Vec::new(),
        model: model.to_owned(),
        stop_reason: None,
        stop_sequence: None,
        container: None,
        usage: Usage::default(),
    };
    proof {
        assert(message@.content =~= Seq::<BlockView>::empty());
        assert(message@ == stream_start_view(model@));
    }
    StreamEvent::MessageStart { message }
}


/// The indices of the block starts among stream events, in order.
pub open spec fn start_indices(s: Seq<EventView>) -> Seq<u32>
    decreases s.len(),
{
    if s.len() == 0 {
        Seq::empty()
    } else {
        let rest = start_indices(s.drop_last());
        match s.last() {
            EventView::BlockStart(i, _) => rest.push(i),
            _ => rest,
        }
    }
}

/// The indices `from, from + 1, ..., to - 1`.
pub open spec fn index_run(from: int, to: int) -> Seq<u32> {
    Seq::new((to - from) as nat, |i: int| (from + i) as u32)
}

pub proof fn lemma_start_indices_concat(a: Seq<EventView>, b: Seq<EventView>)
    ensures
        start_indices(a + b) == start_indices(a) + start_indices(b),
    decreases b.len(),
{
    if b.len() == 0 {
        assert(a + b =~= a);
        assert(start_indices(a) + start_indices(b) =~= start_indices(a));
    } else {
        lemma_start_indices_concat(a, b.drop_last());
        assert((a + b).drop_last() =~= a + b.drop_last());
        assert((a + b).last() == b.last());
        match b.last() {
            EventView::BlockStart(i, _) => {
                assert(start_indices(a) + start_indices(b.drop_last()).push(i) =~= (start_indices(a)
                    + start_indices(b.drop_last())).push(i));
            },
            _ => {},
        }
    }
}

pub proof fn lemma_index_run_extend(from: int, mid: int, to: int)
    requires
        from <= mid <= to,
    ensures
        index_run(from, mid) + index_run(mid, to) == index_run(from, to),
{
    assert(index_run(from, mid) + index_run(mid, to) =~= index_run(from, to));
}


/// What a stream hands out: an event, or the failure to read the body.
pub enum OutputView {
    Event(EventView),
    ReadError,
}

pub open spec fn as_outputs(evs: Seq<EventView>) -> Seq<OutputView> {
    evs.map_values(|e: EventView| OutputView::Event(e))
}

/// The outputs of a stream whose events are `evs`: the events in order, with
/// a read failure, when there was one, just before the last event.
pub open spec fn stream_outputs(evs: Seq<EventView>, failed: bool) -> Seq<OutputView> {
    as_outputs(evs.drop_last()) + (if failed {
        seq![OutputView::ReadError]
    } else {
        Seq::empty()
    }) + seq![OutputView::Event(evs.last())]
}

/// A stream's outputs begin with its first event and end with its last; a
/// read failure appears at most once, and only just before the last output.
pub proof fn law_stream_outputs(evs: Seq<EventView>, failed: bool)
    requires
        evs.len() >= 2,
    ensures
        stream_outputs(evs, failed)[0] == OutputView::Event(evs[0]),
        stream_outputs(evs, failed).last() == OutputView::Event(evs.last()),
        forall|i: int|
            0 <= i < stream_outputs(evs, failed).len() && #[trigger] stream_outputs(evs, failed)[i]
                == OutputView::ReadError ==> failed && i == stream_outputs(evs, failed).len() - 2,
{
    let o = stream_outputs(evs, failed);
    let a = as_outputs(evs.drop_last());
    assert forall|i: int| 0 <= i < o.len() && #[trigger] o[i] == OutputView::ReadError implies failed
        && i == o.len() - 2 by {
        if i < a.len() {
            assert(o[i] == a[i]);
        }
    }
}

} // verus!
