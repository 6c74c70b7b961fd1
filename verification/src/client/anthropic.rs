//! The Anthropic Messages wire format: request bodies, responses and the
//! events of a streamed response.
use vstd::prelude::*;

use crate::client::fields::{
    clone_opt, count_or_zero, is_str, opt_is, spec_usage, str_or, string_or, usage_from_json,
    UsageJson,
};
use crate::models::{
    as_outputs, blocks_view, index_run, stream_outputs, OutputView, lemma_index_run_extend, lemma_start_indices_concat, opt_chars, start_indices, stream_start_view, BlockView, ContentBlock, ContentBlockStart, Delta, DeltaView,
    EventView, Message, MessageDelta, MessageRequest, MessageResponse, ResponseView, StartView,
    StreamEvent, SystemBlock, SystemPrompt, Tool,
};
use crate::text::{append_str, push_char};
use crate::models::stream_start_event;

verus! {

/// The texts of system prompt blocks joined with `\n`.
pub open spec fn join_lines(parts: Seq<Seq<char>>) -> Seq<char>
    decreases parts.len(),
{
    if parts.len() == 0 {
        Seq::empty()
    } else if parts.len() == 1 {
        parts[0]
    } else {
        join_lines(parts.drop_last()) + seq!['\n'] + parts.last()
    }
}

/// The system prompt as one text.
pub open spec fn system_text(s: SystemPrompt) -> Seq<char> {
    match s {
        SystemPrompt::Text(t) => t@,
        SystemPrompt::Blocks(v) => join_lines(v@.map_values(|b: SystemBlock| b.text@)),
    }
}

pub fn system_prompt_text(s: &SystemPrompt) -> (r: String)
    ensures
        r@ == system_text(*s),
{
    match s {
        SystemPrompt::Text(t) => t.clone(),
        SystemPrompt::Blocks(blocks) => {
            let ghost texts = blocks@.map_values(|b: SystemBlock| b.text@);
            let mut out = String::new();
            let mut i: usize = 0;
            while i < blocks.len()
                invariant
                    i <= blocks@.len(),
                    texts == blocks@.map_values(|b: SystemBlock| b.text@),
                    out@ == join_lines(texts.take(i as int)),
                decreases blocks@.len() - i,
            {
                proof {
                    assert(texts.take(i + 1).drop_last() =~= texts.take(i as int));
                }
                if i > 0 {
                    push_char(&mut out, '\n');
                }
                append_str(&mut out, blocks[i].text.as_str());
                i = i + 1;
                assert(out@ =~= join_lines(texts.take(i as int)));
            }
            assert(texts.take(blocks@.len() as int) =~= texts);
            out
        },
    }
}

/// One entry of the `content` array of a request message.
#[derive(Clone, Debug)]
pub enum AnthropicContent {
    Text { text: String },
    Thinking { thinking: String },
    ToolUse { id: String, name: String, input: serde_json::Value },
    ToolResult { tool_use_id: String, content: String, is_error: bool },
}

/// A message of the `messages` array.
#[derive(Clone, Debug)]
pub struct AnthropicMessage {
    pub role: String,
    pub content: Vec<AnthropicContent>,
}

/// A tool of the `tools` array.
#[derive(Clone, Debug)]
pub struct AnthropicTool {
    pub name: String,
    pub description: String,
    pub input_schema: serde_json::Value,
}

/// The JSON body of a Messages request; an optional field that is `None` is
/// left out of the body. `temperature` and `top_p` hold `f32` bit patterns.
#[derive(Clone, Debug)]
pub struct AnthropicRequest {
    pub model: String,
    pub max_tokens: u32,
    pub system: Option<String>,
    pub messages: Vec<AnthropicMessage>,
    pub tools: Option<Vec<AnthropicTool>>,
    pub tool_choice: Option<serde_json::Value>,
    pub thinking: Option<serde_json::Value>,
    pub temperature: Option<u32>,
    pub top_p: Option<u32>,
    pub stream: Option<bool>,
}

pub enum AContentView {
    Text(Seq<char>),
    Thinking(Seq<char>),
    ToolUse(Seq<char>, Seq<char>, serde_json::Value),
    ToolResult(Seq<char>, Seq<char>, bool),
}

impl View for AnthropicContent {
    type V = AContentView;

    open spec fn view(&self) -> AContentView {
        match self {
            AnthropicContent::Text { text } => AContentView::Text(text@),
            AnthropicContent::Thinking { thinking } => AContentView::Thinking(thinking@),
            AnthropicContent::ToolUse { id, name, input } => AContentView::ToolUse(
                id@,
                name@,
                *input,
            ),
            AnthropicContent::ToolResult { tool_use_id, content, is_error } =>
                AContentView::ToolResult(tool_use_id@, content@, *is_error),
        }
    }
}

pub struct AMessageView {
    pub role: Seq<char>,
    pub content: Seq<AContentView>,
}

impl View for AnthropicMessage {
    type V = AMessageView;

    open spec fn view(&self) -> AMessageView {
        AMessageView {
            role: self.role@,
            content: self.content@.map_values(|c: AnthropicContent| c@),
        }
    }
}

pub struct AToolView {
    pub name: Seq<char>,
    pub description: Seq<char>,
    pub input_schema: serde_json::Value,
}

impl View for AnthropicTool {
    type V = AToolView;

    open spec fn view(&self) -> AToolView {
        AToolView {
            name: self.name@,
            description: self.description@,
            input_schema: self.input_schema,
        }
    }
}

pub struct ARequestView {
    pub model: Seq<char>,
    pub max_tokens: u32,
    pub system: Option<Seq<char>>,
    pub messages: Seq<AMessageView>,
    pub tools: Option<Seq<AToolView>>,
    pub tool_choice: Option<serde_json::Value>,
    pub thinking: Option<serde_json::Value>,
    pub temperature: Option<u32>,
    pub top_p: Option<u32>,
    pub stream: Option<bool>,
}

impl View for AnthropicRequest {
    type V = ARequestView;

    open spec fn view(&self) -> ARequestView {
        ARequestView {
            model: self.model@,
            max_tokens: self.max_tokens,
            system: opt_chars(self.system),
            messages: self.messages@.map_values(|m: AnthropicMessage| m@),
            tools: match self.tools {
                Some(t) => Some(t@.map_values(|x: AnthropicTool| x@)),
                None => None,
            },
            tool_choice: self.tool_choice,
            thinking: self.thinking,
            temperature: self.temperature,
            top_p: self.top_p,
            stream: self.stream,
        }
    }
}

/// A content block as Anthropic takes it; a tool result without an error
/// flag is sent as not an error.
pub open spec fn content_for(b: BlockView) -> AContentView {
    match b {
        BlockView::Text { text, .. } => AContentView::Text(text),
        BlockView::Thinking { thinking } => AContentView::Thinking(thinking),
        BlockView::ToolUse { id, name, input, .. } => AContentView::ToolUse(id, name, input),
        BlockView::ToolResult { tool_use_id, content, is_error } => AContentView::ToolResult(
            tool_use_id,
            content,
            match is_error {
                Some(e) => e,
                None => false,
            },
        ),
    }
}

pub open spec fn message_for(m: Message) -> AMessageView {
    AMessageView {
        role: m.role@,
        content: m.content@.map_values(|b: ContentBlock| content_for(b@)),
    }
}

pub open spec fn tool_for(t: Tool) -> AToolView {
    AToolView { name: t.name@, description: t.description@, input_schema: t.input_schema }
}

/// The Messages request body for a request.
pub open spec fn spec_convert_request(req: MessageRequest) -> ARequestView {
    ARequestView {
        model: req.model@,
        max_tokens: req.max_tokens,
        system: match req.system {
            Some(s) => Some(system_text(s)),
            None => None,
        },
        messages: req.messages@.map_values(|m: Message| message_for(m)),
        tools: match req.tools {
            Some(ts) => Some(ts@.map_values(|t: Tool| tool_for(t))),
            None => None,
        },
        tool_choice: req.tool_choice,
        thinking: req.thinking,
        temperature: req.temperature,
        top_p: req.top_p,
        stream: None,
    }
}

fn convert_content(b: &ContentBlock) -> (r: AnthropicContent)
    ensures
        r@ == content_for(b@),
{
    match b {
        ContentBlock::Text { text, .. } => AnthropicContent::Text { text: text.clone() },
        ContentBlock::Thinking { thinking } => AnthropicContent::Thinking {
            thinking: thinking.clone(),
        },
        ContentBlock::ToolUse { id, name, input, .. } => AnthropicContent::ToolUse {
            id: id.clone(),
            name: name.clone(),
            input: input.clone(),
        },
        ContentBlock::ToolResult { tool_use_id, content, is_error } => AnthropicContent::ToolResult {
            tool_use_id: tool_use_id.clone(),
            content: content.clone(),
            is_error: match is_error {
                Some(e) => *e,
                None => false,
            },
        },
    }
}

fn convert_message(m: &Message) -> (r: AnthropicMessage)
    ensures
        r@ == message_for(*m),
{
    let mut content: Vec<AnthropicContent> = Vec::new();
    let mut i: usize = 0;
    while i < m.content.len()
        invariant
            i <= m.content@.len(),
            content@.len() == i,
            forall|k: int| 0 <= k < i ==> (#[trigger] content@[k])@ == content_for(m.content@[k]@),
        decreases m.content@.len() - i,
    {
        content.push(convert_content(&m.content[i]));
        i = i + 1;
    }
    let r = AnthropicMessage { role: m.role.clone(), content };
    assert(r@.content =~= message_for(*m).content);
    r
}

fn convert_tools(tools: &Vec<Tool>) -> (r: Vec<AnthropicTool>)
    ensures
        r@.map_values(|x: AnthropicTool| x@) == tools@.map_values(|t: Tool| tool_for(t)),
{
    let mut out: Vec<AnthropicTool> = Vec::new();
    let mut i: usize = 0;
    while i < tools.len()
        invariant
            i <= tools@.len(),
            out@.len() == i,
            forall|k: int| 0 <= k < i ==> (#[trigger] out@[k])@ == tool_for(tools@[k]),
        decreases tools@.len() - i,
    {
        let t = &tools[i];
        out.push(
            AnthropicTool {
                name: t.name.clone(),
                description: t.description.clone(),
                input_schema: t.input_schema.clone(),
            },
        );
        i = i + 1;
    }
    assert(out@.map_values(|x: AnthropicTool| x@) =~= tools@.map_values(|t: Tool| tool_for(t)));
    out
}

fn clone_opt_value(o: &Option<serde_json::Value>) -> (r: Option<serde_json::Value>)
    ensures
        r == *o,
{
    match o {
        Some(v) => Some(v.clone()),
        None => None,
    }
}

/// The Messages request body for a request: the system prompt as one text,
/// every content block in Anthropic's shape, the tools with their schemas,
/// and the sampling settings as they are.
pub fn convert_request(request: &MessageRequest) -> (r: AnthropicRequest)
    ensures
        r@ == spec_convert_request(*request),
{
    let system = match &request.system {
        Some(s) => Some(system_prompt_text(s)),
        None => None,
    };
    let mut messages: Vec<AnthropicMessage> = Vec::new();
    let mut i: usize = 0;
    while i < request.messages.len()
        invariant
            i <= request.messages@.len(),
            messages@.len() == i,
            forall|k: int|
                0 <= k < i ==> (#[trigger] messages@[k])@ == message_for(request.messages@[k]),
        decreases request.messages@.len() - i,
    {
        messages.push(convert_message(&request.messages[i]));
        i = i + 1;
    }
    let tools = match &request.tools {
        Some(ts) => Some(convert_tools(ts)),
        None => None,
    };
    let r = AnthropicRequest {
        model: request.model.clone(),
        max_tokens: request.max_tokens,
        system,
        messages,
        tools,
        tool_choice: clone_opt_value(&request.tool_choice),
        thinking: clone_opt_value(&request.thinking),
        temperature: request.temperature,
        top_p: request.top_p,
        stream: None,
    };
    assert(r@.messages =~= spec_convert_request(*request).messages);
    r
}

impl AnthropicRequest {
    /// The same body asking for a streamed response.
    pub fn streaming(self) -> (r: AnthropicRequest)
        ensures
            r@ == (ARequestView { stream: Some(true), ..self@ }),
    {
        AnthropicRequest { stream: Some(true), ..self }
    }
}

/// A block of a response's `content` array, by the fields the client reads;
/// a field is `None` where it is missing or not a string, and `input` is JSON
/// null where the block has none.
#[derive(Clone, Debug)]
pub struct AnthropicBlockJson {
    pub block_type: Option<String>,
    pub text: Option<String>,
    pub thinking: Option<String>,
    pub id: Option<String>,
    pub name: Option<String>,
    pub input: serde_json::Value,
}

/// A Messages response, by the fields the client reads; `content` is `None`
/// where the response has no `content` array, `usage` where it has no `usage`.
#[derive(Clone, Debug)]
pub struct AnthropicResponseJson {
    pub id: Option<String>,
    pub role: Option<String>,
    pub model: Option<String>,
    pub content: Option<Vec<AnthropicBlockJson>>,
    pub usage: Option<UsageJson>,
    pub stop_reason: Option<String>,
    pub stop_sequence: Option<String>,
}

/// The content block a response block becomes: text, thinking and tool use
/// blocks with the fields they need; any other block is dropped.
pub open spec fn block_from_json(b: AnthropicBlockJson) -> Option<BlockView> {
    if is_str(b.block_type, "text"@) {
        match b.text {
            Some(t) => Some(BlockView::Text { text: t@, cache_control: None }),
            None => None,
        }
    } else if is_str(b.block_type, "thinking"@) {
        match b.thinking {
            Some(t) => Some(BlockView::Thinking { thinking: t@ }),
            None => None,
        }
    } else if is_str(b.block_type, "tool_use"@) {
        match (b.id, b.name) {
            (Some(id), Some(name)) => Some(
                BlockView::ToolUse { id: id@, name: name@, input: b.input, caller: None },
            ),
            _ => None,
        }
    } else {
        None
    }
}

/// The content blocks of a response, in order, without the dropped ones.
pub open spec fn blocks_from_json(s: Seq<AnthropicBlockJson>) -> Seq<BlockView>
    decreases s.len(),
{
    if s.len() == 0 {
        Seq::empty()
    } else {
        let rest = blocks_from_json(s.drop_last());
        match block_from_json(s.last()) {
            Some(b) => rest.push(b),
            None => rest,
        }
    }
}

/// The response the client makes of a Messages response.
pub open spec fn spec_convert_response(resp: AnthropicResponseJson) -> ResponseView {
    ResponseView {
        id: str_or(resp.id, ""@),
        message_type: "message"@,
        role: str_or(resp.role, "assistant"@),
        content: match resp.content {
            Some(v) => blocks_from_json(v@),
            None => Seq::empty(),
        },
        model: str_or(resp.model, ""@),
        stop_reason: opt_chars(resp.stop_reason),
        stop_sequence: opt_chars(resp.stop_sequence),
        container: None,
        usage: spec_usage(resp.usage),
    }
}

fn block_from_json_exec(b: &AnthropicBlockJson) -> (r: Option<ContentBlock>)
    ensures
        match r {
            Some(c) => block_from_json(*b) == Some(c@),
            None => block_from_json(*b) is None,
        },
{
    if opt_is(&b.block_type, "text") {
        match &b.text {
            Some(t) => Some(ContentBlock::Text { text: t.clone(), cache_control: None }),
            None => None,
        }
    } else if opt_is(&b.block_type, "thinking") {
        match &b.thinking {
            Some(t) => Some(ContentBlock::Thinking { thinking: t.clone() }),
            None => None,
        }
    } else if opt_is(&b.block_type, "tool_use") {
        match (&b.id, &b.name) {
            (Some(id), Some(name)) => Some(
                ContentBlock::ToolUse {
                    id: id.clone(),
                    name: name.clone(),
                    input: b.input.clone(),
                    caller: None,
                },
            ),
            _ => None,
        }
    } else {
        None
    }
}

fn blocks_from_json_exec(v: &Vec<AnthropicBlockJson>) -> (r: Vec<ContentBlock>)
    ensures
        blocks_view(r@) == blocks_from_json(v@),
{
    let mut out: Vec<ContentBlock> = Vec::new();
    let mut i: usize = 0;
    while i < v.len()
        invariant
            i <= v@.len(),
            blocks_view(out@) == blocks_from_json(v@.take(i as int)),
        decreases v@.len() - i,
    {
        proof {
            assert(v@.take(i + 1).drop_last() =~= v@.take(i as int));
        }
        match block_from_json_exec(&v[i]) {
            Some(c) => {
                out.push(c);
                assert(blocks_view(out@) =~= blocks_from_json(v@.take(i + 1)));
            },
            None => {},
        }
        i = i + 1;
    }
    assert(v@.take(v@.len() as int) =~= v@);
    out
}

/// The client's response for a Messages response: text, thinking and tool
/// use blocks in order (others dropped), the stop reason, and the token
/// counts (zero where missing).
pub fn convert_response(resp_json: &AnthropicResponseJson) -> (r: MessageResponse)
    ensures
        r@ == spec_convert_response(*resp_json),
{
    let content = match &resp_json.content {
        Some(v) => blocks_from_json_exec(v),
        None => Vec::new(),
    };
    let r = MessageResponse {
        id: string_or(&resp_json.id, ""),
        message_type: "message".to_owned(),
        role: string_or(&resp_json.role, "assistant"),
        content,
        model: string_or(&resp_json.model, ""),
        stop_reason: clone_opt(&resp_json.stop_reason),
        stop_sequence: clone_opt(&resp_json.stop_sequence),
        container: None,
        usage: usage_from_json(&resp_json.usage),
    };
    assert(r@.content =~= spec_convert_response(*resp_json).content);
    r
}


/// The `delta` object of a stream event, by the fields the client reads.
#[derive(Clone, Debug)]
pub struct AnthropicDeltaJson {
    pub delta_type: Option<String>,
    pub text: Option<String>,
    pub thinking: Option<String>,
    pub partial_json: Option<String>,
    pub stop_reason: Option<String>,
}

/// One event of a streamed Messages response, by the fields the client
/// reads; `content_block`, `delta` and `usage` are `None` where the event
/// has no such key, `index` where it has no unsigned integer there.
#[derive(Clone, Debug)]
pub struct AnthropicEventJson {
    pub event_type: Option<String>,
    pub content_block: Option<AnthropicBlockJson>,
    pub delta: Option<AnthropicDeltaJson>,
    pub index: Option<u64>,
    pub usage: Option<UsageJson>,
}

pub open spec fn no_events() -> Seq<EventView> {
    Seq::empty()
}

/// The events a stream event becomes, given the index the next started block
/// gets, and that index afterwards. A started text, thinking or tool use
/// block takes the next index; deltas and stops carry the event's own index
/// (0 where it has none, truncated to 32 bits); unknown events yield nothing.
pub open spec fn spec_stream_event(next: u32, ev: AnthropicEventJson) -> (u32, Seq<EventView>) {
    if is_str(ev.event_type, "content_block_start"@) {
        match ev.content_block {
            Some(b) => if is_str(b.block_type, "text"@) {
                ((next + 1) as u32, seq![EventView::BlockStart(next, StartView::Text(str_or(b.text, ""@)))])
            } else if is_str(b.block_type, "thinking"@) {
                (
                    (next + 1) as u32,
                    seq![EventView::BlockStart(next, StartView::Thinking(str_or(b.thinking, ""@)))],
                )
            } else if is_str(b.block_type, "tool_use"@) {
                (
                    (next + 1) as u32,
                    seq![
                        EventView::BlockStart(
                            next,
                            StartView::ToolUse(str_or(b.id, ""@), str_or(b.name, ""@), b.input, None),
                        ),
                    ],
                )
            } else {
                (next, no_events())
            },
            None => (next, no_events()),
        }
    } else if is_str(ev.event_type, "content_block_delta"@) {
        let idx = count_or_zero(ev.index);
        match ev.delta {
            Some(d) => if is_str(d.delta_type, "text_delta"@) {
                (next, seq![EventView::BlockDelta(idx, DeltaView::Text(str_or(d.text, ""@)))])
            } else if is_str(d.delta_type, "thinking_delta"@) {
                (next, seq![EventView::BlockDelta(idx, DeltaView::Thinking(str_or(d.thinking, ""@)))])
            } else if is_str(d.delta_type, "input_json_delta"@) {
                (
                    next,
                    seq![EventView::BlockDelta(idx, DeltaView::InputJson(str_or(d.partial_json, ""@)))],
                )
            } else {
                (next, no_events())
            },
            None => (next, no_events()),
        }
    } else if is_str(ev.event_type, "content_block_stop"@) {
        (next, seq![EventView::BlockStop(count_or_zero(ev.index))])
    } else if is_str(ev.event_type, "message_delta"@) {
        match ev.delta {
            Some(d) => (
                next,
                seq![
                    EventView::MessageDelta(
                        opt_chars(d.stop_reason),
                        None,
                        match ev.usage {
                            Some(u) => Some(spec_usage(Some(u))),
                            None => None,
                        },
                    ),
                ],
            ),
            None => (next, no_events()),
        }
    } else if is_str(ev.event_type, "message_stop"@) {
        (next, seq![EventView::MessageStop])
    } else {
        (next, no_events())
    }
}

/// The state of a streamed Messages response: the index the next started
/// content block gets.
pub struct AnthropicStreamState {
    content_index: u32,
}

impl View for AnthropicStreamState {
    type V = u32;

    closed spec fn view(&self) -> u32 {
        self.content_index
    }
}

fn index_of(o: Option<u64>) -> (r: u32)
    ensures
        r == count_or_zero(o),
{
    match o {
        Some(n) => n as u32,
        None => 0,
    }
}

impl AnthropicStreamState {
    pub fn new() -> (r: Self)
        ensures
            r@ == 0,
    {
        AnthropicStreamState { content_index: 0 }
    }

    /// The index the next started content block gets.
    pub fn next_index(&self) -> (r: u32)
        ensures
            r == self@,
    {
        self.content_index
    }

    /// The events one stream event becomes.
    pub fn on_event(&mut self, ev: &AnthropicEventJson) -> (r: Vec<StreamEvent>)
        requires
            old(self)@ < u32::MAX,
        ensures
            final(self)@ == spec_stream_event(old(self)@, *ev).0,
            crate::models::events_view(r@) == spec_stream_event(old(self)@, *ev).1,
    {
        let mut out: Vec<StreamEvent> = Vec::new();
        if opt_is(&ev.event_type, "content_block_start") {
            match &ev.content_block {
                Some(b) => {
                    if opt_is(&b.block_type, "text") {
                        out.push(
                            StreamEvent::ContentBlockStart {
                                index: self.content_index,
                                content_block: ContentBlockStart::Text { text: string_or(&b.text, "") },
                            },
                        );
                        self.content_index = self.content_index + 1;
                    } else if opt_is(&b.block_type, "thinking") {
                        out.push(
                            StreamEvent::ContentBlockStart {
                                index: self.content_index,
                                content_block: ContentBlockStart::Thinking {
                                    thinking: string_or(&b.thinking, ""),
                                },
                            },
                        );
                        self.content_index = self.content_index + 1;
                    } else if opt_is(&b.block_type, "tool_use") {
                        out.push(
                            StreamEvent::ContentBlockStart {
                                index: self.content_index,
                                content_block: ContentBlockStart::ToolUse {
                                    id: string_or(&b.id, ""),
                                    name: string_or(&b.name, ""),
                                    input: b.input.clone(),
                                    caller: None,
                                },
                            },
                        );
                        self.content_index = self.content_index + 1;
                    }
                },
                None => {},
            }
        } else if opt_is(&ev.event_type, "content_block_delta") {
            let idx = index_of(ev.index);
            match &ev.delta {
                Some(d) => {
                    if opt_is(&d.delta_type, "text_delta") {
                        out.push(
                            StreamEvent::ContentBlockDelta {
                                index: idx,
                                delta: Delta::TextDelta { text: string_or(&d.text, "") },
                            },
                        );
                    } else if opt_is(&d.delta_type, "thinking_delta") {
                        out.push(
                            StreamEvent::ContentBlockDelta {
                                index: idx,
                                delta: Delta::ThinkingDelta { thinking: string_or(&d.thinking, "") },
                            },
                        );
                    } else if opt_is(&d.delta_type, "input_json_delta") {
                        out.push(
                            StreamEvent::ContentBlockDelta {
                                index: idx,
                                delta: Delta::InputJsonDelta {
                                    partial_json: string_or(&d.partial_json, ""),
                                },
                            },
                        );
                    }
                },
                None => {},
            }
        } else if opt_is(&ev.event_type, "content_block_stop") {
            out.push(StreamEvent::ContentBlockStop { index: index_of(ev.index) });
        } else if opt_is(&ev.event_type, "message_delta") {
            match &ev.delta {
                Some(d) => {
                    let usage = match &ev.usage {
                        Some(u) => Some(usage_from_json(&Some(*u))),
                        None => None,
                    };
                    out.push(
                        StreamEvent::MessageDelta {
                            delta: MessageDelta {
                                stop_reason: clone_opt(&d.stop_reason),
                                stop_sequence: None,
                            },
                            usage,
                        },
                    );
                },
                None => {},
            }
        } else if opt_is(&ev.event_type, "message_stop") {
            out.push(StreamEvent::MessageStop);
        }
        assert(crate::models::events_view(out@) =~= spec_stream_event(old(self)@, *ev).1);
        out
    }
}


/// The events a run of stream events becomes, from a given next block index,
/// and the next index afterwards.
pub open spec fn stream_events(next: u32, evs: Seq<AnthropicEventJson>) -> (u32, Seq<EventView>)
    decreases evs.len(),
{
    if evs.len() == 0 {
        (next, Seq::empty())
    } else {
        let prev = stream_events(next, evs.drop_last());
        let step = spec_stream_event(prev.0, evs.last());
        (step.0, prev.1 + step.1)
    }
}

/// The whole event stream of a response: the opening message, the events of
/// its stream events from block index 0, and the closing stop.
pub open spec fn spec_stream(model: Seq<char>, evs: Seq<AnthropicEventJson>) -> Seq<EventView> {
    seq![EventView::MessageStart(stream_start_view(model))] + stream_events(0, evs).1 + seq![
        EventView::MessageStop,
    ]
}

proof fn lemma_stream_event_starts(next: u32, ev: AnthropicEventJson)
    requires
        next < u32::MAX,
    ensures
        spec_stream_event(next, ev).0 == next || spec_stream_event(next, ev).0 == next + 1,
        start_indices(spec_stream_event(next, ev).1) == index_run(
            next as int,
            spec_stream_event(next, ev).0 as int,
        ),
{
    let r = spec_stream_event(next, ev);
    reveal_with_fuel(start_indices, 2);
    if r.0 == next {
        assert(start_indices(r.1) =~= index_run(next as int, next as int));
    } else {
        assert(start_indices(r.1) =~= index_run(next as int, r.0 as int));
    }
}

proof fn lemma_stream_events(evs: Seq<AnthropicEventJson>)
    requires
        evs.len() < u32::MAX,
    ensures
        stream_events(0, evs).0 <= evs.len(),
        start_indices(stream_events(0, evs).1) == index_run(0, stream_events(0, evs).0 as int),
    decreases evs.len(),
{
    if evs.len() == 0 {
        assert(start_indices(Seq::<EventView>::empty()) =~= index_run(0, 0));
    } else {
        let q = evs.drop_last();
        lemma_stream_events(q);
        let prev = stream_events(0, q);
        lemma_stream_event_starts(prev.0, evs.last());
        let step = spec_stream_event(prev.0, evs.last());
        lemma_start_indices_concat(prev.1, step.1);
        lemma_index_run_extend(0, prev.0 as int, step.0 as int);
    }
}

/// Every block of every message reaches the Messages body in place and
/// unchanged: text as text, thinking as thinking, a tool call with its id, name
/// and input, and a tool result with its id and content, flagged as an error
/// exactly when the block says `Some(true)` (a missing flag is sent as `false`);
/// each message keeps its role and its number of blocks.
pub proof fn law_request_blocks(req: MessageRequest)
    ensures
        spec_convert_request(req).messages.len() == req.messages@.len(),
        forall|i: int|
            0 <= i < req.messages@.len() ==> (#[trigger] spec_convert_request(req).messages[i]).role
                == req.messages@[i].role@ && spec_convert_request(req).messages[i].content.len()
                == req.messages@[i].content@.len(),
        forall|i: int, j: int|
            0 <= i < req.messages@.len() && 0 <= j < req.messages@[i].content@.len() ==> {
                let out = #[trigger] spec_convert_request(req).messages[i].content[j];
                match req.messages@[i].content@[j]@ {
                    BlockView::Text { text, .. } => out == AContentView::Text(text),
                    BlockView::Thinking { thinking } => out == AContentView::Thinking(thinking),
                    BlockView::ToolUse { id, name, input, .. } => out == AContentView::ToolUse(
                        id,
                        name,
                        input,
                    ),
                    BlockView::ToolResult { tool_use_id, content, is_error: Some(e) } => out
                        == AContentView::ToolResult(tool_use_id, content, e),
                    BlockView::ToolResult { tool_use_id, content, is_error: None } => out
                        == AContentView::ToolResult(tool_use_id, content, false),
                }
            },
{
}

/// The Messages body names the request's model and output limit, carries the
/// sampling and thinking settings as given, and sends the system prompt as one
/// text: a text prompt as it is, block prompts joined with `\n` in order (one
/// block as its own text, none as the empty text).
pub proof fn law_request_settings(req: MessageRequest, a: Seq<char>, b: Seq<char>)
    ensures
        spec_convert_request(req).model == req.model@,
        spec_convert_request(req).max_tokens == req.max_tokens,
        spec_convert_request(req).temperature == req.temperature,
        spec_convert_request(req).top_p == req.top_p,
        spec_convert_request(req).thinking == req.thinking,
        spec_convert_request(req).tool_choice == req.tool_choice,
        spec_convert_request(req).system == match req.system {
            Some(sp) => Some(system_text(sp)),
            None => None,
        },
        spec_convert_request(req).stream is None,
        req.tools is None ==> spec_convert_request(req).tools is None,
        req.tools is Some ==> ({
            let ts = req.tools.unwrap()@;
            let out = spec_convert_request(req).tools.unwrap();
            &&& spec_convert_request(req).tools is Some
            &&& out.len() == ts.len()
            &&& forall|i: int|
                0 <= i < ts.len() ==> (#[trigger] out[i]).name == ts[i].name@ && out[i].description
                    == ts[i].description@ && out[i].input_schema == ts[i].input_schema
        }),
        join_lines(seq![a, b]) == a + seq!['\n'] + b,
        join_lines(seq![a]) == a,
        join_lines(Seq::<Seq<char>>::empty()) == Seq::<char>::empty(),
{
    assert(seq![a, b].drop_last() =~= seq![a]);
    assert(join_lines(seq![a]) == a);
    assert(seq![a, b].last() == b);
}

/// What each block of a Messages response becomes: a `text` block with its
/// text, a `thinking` block with its thinking, a `tool_use` block with its id,
/// name and input; a block of another type, or one missing the field it needs,
/// is dropped. The response keeps its id, model and stop reason, and its role
/// is `assistant` unless it names another.
pub proof fn law_response_blocks(b: AnthropicBlockJson, resp: AnthropicResponseJson)
    ensures
        is_str(b.block_type, "text"@) && b.text is Some ==> block_from_json(b) == Some(
            BlockView::Text { text: b.text.unwrap()@, cache_control: None },
        ),
        is_str(b.block_type, "thinking"@) && b.thinking is Some ==> block_from_json(b) == Some(
            BlockView::Thinking { thinking: b.thinking.unwrap()@ },
        ),
        is_str(b.block_type, "tool_use"@) && b.id is Some && b.name is Some ==> block_from_json(b)
            == Some(
            BlockView::ToolUse {
                id: b.id.unwrap()@,
                name: b.name.unwrap()@,
                input: b.input,
                caller: None,
            },
        ),
        !is_str(b.block_type, "text"@) && !is_str(b.block_type, "thinking"@) && !is_str(
            b.block_type,
            "tool_use"@,
        ) ==> block_from_json(b) is None,
        spec_convert_response(resp).role == (match resp.role {
            Some(r) => r@,
            None => "assistant"@,
        }),
        spec_convert_response(resp).stop_reason == opt_chars(resp.stop_reason),
        spec_convert_response(resp).message_type == "message"@,
        spec_convert_response(resp).content == match resp.content {
            Some(v) => blocks_from_json(v@),
            None => Seq::<BlockView>::empty(),
        },
{
    reveal_strlit("text");
    reveal_strlit("thinking");
    reveal_strlit("tool_use");
    assert("text"@ != "thinking"@) by {
        assert("text"@.len() != "thinking"@.len());
    }
    assert("text"@ != "tool_use"@) by {
        assert("text"@.len() != "tool_use"@.len());
    }
    assert("thinking"@ != "tool_use"@) by {
        assert("thinking"@[1] != "tool_use"@[1]);
    }
}

/// How each kind of stream event is read: a `text_delta`, `thinking_delta` or
/// `input_json_delta` becomes a text, thinking or tool-input delta of the
/// event's block with the delta's own text; a started text, thinking or tool
/// use block takes the next index, which then moves on by one; a
/// `content_block_stop` stops the event's block; a `message_delta` carries the
/// stop reason; a `message_stop` ends the message.
pub proof fn law_stream_event_kinds(next: u32, ev: AnthropicEventJson)
    ensures
        is_str(ev.event_type, "content_block_delta"@) && ev.delta is Some && is_str(
            ev.delta.unwrap().delta_type,
            "text_delta"@,
        ) ==> spec_stream_event(next, ev) == (
            next,
            seq![
                EventView::BlockDelta(
                    count_or_zero(ev.index),
                    DeltaView::Text(str_or(ev.delta.unwrap().text, ""@)),
                ),
            ],
        ),
        is_str(ev.event_type, "content_block_delta"@) && ev.delta is Some && is_str(
            ev.delta.unwrap().delta_type,
            "thinking_delta"@,
        ) ==> spec_stream_event(next, ev) == (
            next,
            seq![
                EventView::BlockDelta(
                    count_or_zero(ev.index),
                    DeltaView::Thinking(str_or(ev.delta.unwrap().thinking, ""@)),
                ),
            ],
        ),
        is_str(ev.event_type, "content_block_delta"@) && ev.delta is Some && is_str(
            ev.delta.unwrap().delta_type,
            "input_json_delta"@,
        ) ==> spec_stream_event(next, ev) == (
            next,
            seq![
                EventView::BlockDelta(
                    count_or_zero(ev.index),
                    DeltaView::InputJson(str_or(ev.delta.unwrap().partial_json, ""@)),
                ),
            ],
        ),
        is_str(ev.event_type, "content_block_start"@) && ev.content_block is Some && is_str(
            ev.content_block.unwrap().block_type,
            "text"@,
        ) ==> spec_stream_event(next, ev) == (
            (next + 1) as u32,
            seq![
                EventView::BlockStart(
                    next,
                    StartView::Text(str_or(ev.content_block.unwrap().text, ""@)),
                ),
            ],
        ),
        is_str(ev.event_type, "content_block_start"@) && ev.content_block is Some && is_str(
            ev.content_block.unwrap().block_type,
            "thinking"@,
        ) ==> spec_stream_event(next, ev) == (
            (next + 1) as u32,
            seq![
                EventView::BlockStart(
                    next,
                    StartView::Thinking(str_or(ev.content_block.unwrap().thinking, ""@)),
                ),
            ],
        ),
        is_str(ev.event_type, "content_block_start"@) && ev.content_block is Some && is_str(
            ev.content_block.unwrap().block_type,
            "tool_use"@,
        ) ==> spec_stream_event(next, ev) == (
            (next + 1) as u32,
            seq![
                EventView::BlockStart(
                    next,
                    StartView::ToolUse(
                        str_or(ev.content_block.unwrap().id, ""@),
                        str_or(ev.content_block.unwrap().name, ""@),
                        ev.content_block.unwrap().input,
                        None,
                    ),
                ),
            ],
        ),
        is_str(ev.event_type, "content_block_stop"@) ==> spec_stream_event(next, ev) == (
            next,
            seq![EventView::BlockStop(count_or_zero(ev.index))],
        ),
        is_str(ev.event_type, "message_delta"@) && ev.delta is Some ==> spec_stream_event(next, ev).1.len()
            == 1 && (spec_stream_event(next, ev).1[0] matches EventView::MessageDelta(stop, _, _)
            && stop == opt_chars(ev.delta.unwrap().stop_reason)),
        is_str(ev.event_type, "message_stop"@) ==> spec_stream_event(next, ev) == (
            next,
            seq![EventView::MessageStop],
        ),
{
    reveal_strlit("content_block_start");
    reveal_strlit("content_block_delta");
    reveal_strlit("content_block_stop");
    reveal_strlit("message_delta");
    reveal_strlit("message_stop");
    reveal_strlit("text_delta");
    reveal_strlit("thinking_delta");
    reveal_strlit("input_json_delta");
    reveal_strlit("text");
    reveal_strlit("thinking");
    reveal_strlit("tool_use");
    assert("content_block_start"@ != "content_block_delta"@) by {
        assert("content_block_start"@[14] != "content_block_delta"@[14]);
    }
    assert("thinking"@ != "tool_use"@) by {
        assert("thinking"@[1] != "tool_use"@[1]);
    }
    assert("text_delta"@ != "thinking_delta"@) by {
        assert("text_delta"@.len() != "thinking_delta"@.len());
    }
    assert("text_delta"@ != "input_json_delta"@) by {
        assert("text_delta"@.len() != "input_json_delta"@.len());
    }
    assert("thinking_delta"@ != "input_json_delta"@) by {
        assert("thinking_delta"@.len() != "input_json_delta"@.len());
    }
    assert("text"@ != "thinking"@) by {
        assert("text"@.len() != "thinking"@.len());
    }
    assert("text"@ != "tool_use"@) by {
        assert("text"@.len() != "tool_use"@.len());
    }
    assert("content_block_stop"@ != "content_block_start"@) by {
        assert("content_block_stop"@.len() != "content_block_start"@.len());
    }
    assert("content_block_stop"@ != "content_block_delta"@) by {
        assert("content_block_stop"@.len() != "content_block_delta"@.len());
    }
    assert("message_delta"@ != "content_block_start"@) by {
        assert("message_delta"@.len() != "content_block_start"@.len());
    }
    assert("message_delta"@ != "content_block_delta"@) by {
        assert("message_delta"@.len() != "content_block_delta"@.len());
    }
    assert("message_delta"@ != "content_block_stop"@) by {
        assert("message_delta"@.len() != "content_block_stop"@.len());
    }
    assert("message_stop"@ != "content_block_start"@) by {
        assert("message_stop"@.len() != "content_block_start"@.len());
    }
    assert("message_stop"@ != "content_block_delta"@) by {
        assert("message_stop"@.len() != "content_block_delta"@.len());
    }
    assert("message_stop"@ != "content_block_stop"@) by {
        assert("message_stop"@.len() != "content_block_stop"@.len());
    }
    assert("message_stop"@ != "message_delta"@) by {
        assert("message_stop"@.len() != "message_delta"@.len());
    }
}

/// A streamed response opens with the empty assistant message for the model
/// and closes with a stop, and its started blocks are numbered 0, 1, 2, ...
/// in the order they start (for fewer than 2^32 - 1 stream events).
pub proof fn law_stream_shape(model: Seq<char>, evs: Seq<AnthropicEventJson>)
    requires
        evs.len() < u32::MAX,
    ensures
        spec_stream(model, evs)[0] == EventView::MessageStart(stream_start_view(model)),
        spec_stream(model, evs).last() == EventView::MessageStop,
        start_indices(spec_stream(model, evs)) == index_run(0, stream_events(0, evs).0 as int),
{
    lemma_stream_events(evs);
    let head = seq![EventView::MessageStart(stream_start_view(model))];
    let body = stream_events(0, evs).1;
    let tail = seq![EventView::MessageStop];
    lemma_start_indices_concat(head, body);
    lemma_start_indices_concat(head + body, tail);
    reveal_with_fuel(start_indices, 2);
    assert(start_indices(head) =~= Seq::<u32>::empty());
    assert(start_indices(tail) =~= Seq::<u32>::empty());
    assert(Seq::<u32>::empty() + start_indices(body) + Seq::<u32>::empty() =~= start_indices(body));
}


/// A streamed Messages response as it is driven: the opening event, the
/// events of each stream event read from the body, a read failure if one
/// comes, and the closing stop.
pub struct AnthropicStream {
    state: AnthropicStreamState,
    failed: bool,
    finished: bool,
    model: Ghost<Seq<char>>,
    consumed: Ghost<Seq<AnthropicEventJson>>,
    emitted: Ghost<Seq<OutputView>>,
}

/// The course of a stream so far: the model, the stream events taken in,
/// whether reading failed or the stream is finished, and all it handed out.
pub struct AStreamView {
    pub model: Seq<char>,
    pub consumed: Seq<AnthropicEventJson>,
    pub failed: bool,
    pub finished: bool,
    pub emitted: Seq<OutputView>,
}

impl View for AnthropicStream {
    type V = AStreamView;

    closed spec fn view(&self) -> AStreamView {
        AStreamView {
            model: self.model@,
            consumed: self.consumed@,
            failed: self.failed,
            finished: self.finished,
            emitted: self.emitted@,
        }
    }
}

/// What a stream has handed out after taking in `consumed`: the opening
/// event, the events so far, and then the failure and the stop when they
/// have come.
pub open spec fn stream_so_far(s: AStreamView) -> Seq<OutputView> {
    seq![OutputView::Event(EventView::MessageStart(stream_start_view(s.model)))] + as_outputs(
        stream_events(0, s.consumed).1,
    ) + (if s.failed {
        seq![OutputView::ReadError]
    } else {
        Seq::empty()
    }) + (if s.finished {
        seq![OutputView::Event(EventView::MessageStop)]
    } else {
        Seq::empty()
    })
}

impl AnthropicStream {
    /// The stream is consistent: its state and what it handed out follow
    /// from the events taken in.
    pub closed spec fn wf(&self) -> bool {
        &&& self.state@ == stream_events(0, self.consumed@).0
        &&& self.emitted@ == stream_so_far(self@)
    }

    /// A stream for `model`, and the event that opens it.
    pub fn start(model: &str) -> (r: (AnthropicStream, StreamEvent))
        ensures
            r.0.wf(),
            r.0@.model == model@,
            r.0@.consumed.len() == 0,
            !r.0@.failed,
            !r.0@.finished,
            r.1@ == EventView::MessageStart(stream_start_view(model@)),
    {
        let first = stream_start_event(model);
        let ghost em = seq![OutputView::Event(first@)];
        let ghost md = model@;
        let ghost none = Seq::<AnthropicEventJson>::empty();
        let s = AnthropicStream {
            state: AnthropicStreamState::new(),
            failed: false,
            finished: false,
            model: Ghost(md),
            consumed: Ghost(none),
            emitted: Ghost(em),
        };
        proof {
            assert(stream_events(0, Seq::<AnthropicEventJson>::empty()).1 =~= Seq::<EventView>::empty());
            assert(s.emitted@ =~= stream_so_far(s@));
        }
        (s, first)
    }

    /// The index the next started block gets.
    pub fn next_index(&self) -> (r: u32)
        requires
            self.wf(),
        ensures
            r == stream_events(0, self@.consumed).0,
    {
        self.state.next_index()
    }

    /// Whether reading has failed.
    pub fn has_failed(&self) -> (r: bool)
        ensures
            r == self@.failed,
    {
        self.failed
    }

    /// Whether the stream is finished.
    pub fn is_finished(&self) -> (r: bool)
        ensures
            r == self@.finished,
    {
        self.finished
    }

    /// Takes in one stream event; returns the events it becomes.
    pub fn on_event(&mut self, ev: &AnthropicEventJson) -> (r: Vec<StreamEvent>)
        requires
            old(self).wf(),
            !old(self)@.failed,
            !old(self)@.finished,
            stream_events(0, old(self)@.consumed).0 < u32::MAX,
        ensures
            final(self).wf(),
            final(self)@ == (AStreamView {
                consumed: old(self)@.consumed.push(*ev),
                emitted: old(self)@.emitted + as_outputs(crate::models::events_view(r@)),
                ..old(self)@
            }),
            crate::models::events_view(r@) == spec_stream_event(
                stream_events(0, old(self)@.consumed).0,
                *ev,
            ).1,
    {
        let ghost c0 = self.consumed@;
        let r = self.state.on_event(ev);
        proof {
            let c1 = c0.push(*ev);
            assert(c1.drop_last() =~= c0);
            self.consumed = Ghost(c1);
            let e0 = stream_events(0, c0).1;
            let e1 = stream_events(0, c1).1;
            assert(as_outputs(e1) =~= as_outputs(e0) + as_outputs(crate::models::events_view(r@)));
            self.emitted = Ghost(stream_so_far(self@));
            assert(self.emitted@ =~= old(self)@.emitted + as_outputs(crate::models::events_view(r@)));
        }
        r
    }

    /// Records that reading the body failed; the caller hands out the error.
    pub fn read_failed(&mut self)
        requires
            old(self).wf(),
            !old(self)@.failed,
            !old(self)@.finished,
        ensures
            final(self).wf(),
            final(self)@ == (AStreamView {
                failed: true,
                emitted: old(self)@.emitted.push(OutputView::ReadError),
                ..old(self)@
            }),
    {
        self.failed = true;
        proof {
            let before = self.emitted@;
            self.emitted = Ghost(before.push(OutputView::ReadError));
            assert(self.emitted@ =~= stream_so_far(self@));
        }
    }

    /// Ends the stream with its stop event. All the stream then handed out
    /// is its events (opening, from the body, stop) with a read failure,
    /// if there was one, just before the stop.
    pub fn finish(&mut self) -> (r: StreamEvent)
        requires
            old(self).wf(),
            !old(self)@.finished,
        ensures
            final(self).wf(),
            final(self)@.finished,
            final(self)@.consumed == old(self)@.consumed,
            final(self)@.failed == old(self)@.failed,
            final(self)@.model == old(self)@.model,
            r@ == EventView::MessageStop,
            final(self)@.emitted == stream_outputs(
                spec_stream(old(self)@.model, old(self)@.consumed),
                old(self)@.failed,
            ),
    {
        self.finished = true;
        let r = StreamEvent::MessageStop;
        proof {
            let before = self.emitted@;
            self.emitted = Ghost(before.push(OutputView::Event(EventView::MessageStop)));
            assert(self.emitted@ =~= stream_so_far(self@));
            let evs = spec_stream(self.model@, self.consumed@);
            assert(evs.drop_last() =~= seq![EventView::MessageStart(stream_start_view(self.model@))]
                + stream_events(0, self.consumed@).1);
            assert(as_outputs(evs.drop_last()) =~= seq![
                OutputView::Event(EventView::MessageStart(stream_start_view(self.model@))),
            ] + as_outputs(stream_events(0, self.consumed@).1));
            assert(self.emitted@ =~= stream_outputs(evs, self.failed));
        }
        r
    }
}

} // verus!
