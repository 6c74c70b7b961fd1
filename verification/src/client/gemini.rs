//! The Google Gemini wire format: request bodies, responses and the records
//! of a streamed response.
use vstd::prelude::*;

use crate::client::anthropic::system_text;
use crate::client::anthropic::system_prompt_text;
use crate::client::fields::{clone_opt, opt_is, spec_usage, str_or, string_or, usage_from_json, UsageJson};
use crate::models::{
    as_outputs, blocks_view, index_run, stream_outputs, stream_start_event, OutputView, lemma_index_run_extend, lemma_start_indices_concat, opt_chars, start_indices, stream_start_view, BlockView, ContentBlock, ContentBlockStart, Delta, DeltaView,
    EventView, Message, MessageDelta, MessageRequest, MessageResponse, ResponseView, StartView,
    StreamEvent, Tool,
};
use crate::text::{append_str, str_eq};

verus! {

/// One part of a Gemini content entry.
#[derive(Clone, Debug)]
pub enum GeminiPart {
    Text { text: String },
    FunctionCall { name: String, args: serde_json::Value },
    FunctionResponse { name: String, result: String },
}

/// One entry of the `contents` array.
#[derive(Clone, Debug)]
pub struct GeminiContent {
    pub role: String,
    pub parts: Vec<GeminiPart>,
}

/// One function declaration of the `tools` entry.
#[derive(Clone, Debug)]
pub struct GeminiFunctionDeclaration {
    pub name: String,
    pub description: String,
    pub parameters: serde_json::Value,
}

/// The `generationConfig` object; a field that is `None` is left out.
/// `temperature` and `top_p` hold `f32` bit patterns.
#[derive(Clone, Copy, Debug)]
pub struct GeminiGenerationConfig {
    pub temperature: Option<u32>,
    pub top_p: Option<u32>,
    pub max_output_tokens: Option<u32>,
}

/// The JSON body of a `generateContent` request; `system_instruction` is sent
/// as `{"parts": [{"text": ...}]}`, `tools` as one entry holding the
/// `functionDeclarations`, and a field that is `None` is left out.
#[derive(Clone, Debug)]
pub struct GeminiRequest {
    pub system_instruction: Option<String>,
    pub contents: Vec<GeminiContent>,
    pub tools: Option<Vec<GeminiFunctionDeclaration>>,
    pub generation_config: Option<GeminiGenerationConfig>,
}

pub enum GPartView {
    Text(Seq<char>),
    FunctionCall(Seq<char>, serde_json::Value),
    FunctionResponse(Seq<char>, Seq<char>),
}

impl View for GeminiPart {
    type V = GPartView;

    open spec fn view(&self) -> GPartView {
        match self {
            GeminiPart::Text { text } => GPartView::Text(text@),
            GeminiPart::FunctionCall { name, args } => GPartView::FunctionCall(name@, *args),
            GeminiPart::FunctionResponse { name, result } => GPartView::FunctionResponse(
                name@,
                result@,
            ),
        }
    }
}

pub struct GContentView {
    pub role: Seq<char>,
    pub parts: Seq<GPartView>,
}

impl View for GeminiContent {
    type V = GContentView;

    open spec fn view(&self) -> GContentView {
        GContentView { role: self.role@, parts: self.parts@.map_values(|p: GeminiPart| p@) }
    }
}

pub struct GDeclView {
    pub name: Seq<char>,
    pub description: Seq<char>,
    pub parameters: serde_json::Value,
}

impl View for GeminiFunctionDeclaration {
    type V = GDeclView;

    open spec fn view(&self) -> GDeclView {
        GDeclView { name: self.name@, description: self.description@, parameters: self.parameters }
    }
}

pub struct GRequestView {
    pub system_instruction: Option<Seq<char>>,
    pub contents: Seq<GContentView>,
    pub tools: Option<Seq<GDeclView>>,
    pub generation_config: Option<GeminiGenerationConfig>,
}

impl View for GeminiRequest {
    type V = GRequestView;

    open spec fn view(&self) -> GRequestView {
        GRequestView {
            system_instruction: opt_chars(self.system_instruction),
            contents: self.contents@.map_values(|c: GeminiContent| c@),
            tools: match self.tools {
                Some(t) => Some(t@.map_values(|d: GeminiFunctionDeclaration| d@)),
                None => None,
            },
            generation_config: self.generation_config,
        }
    }
}

/// The part a content block becomes; thinking blocks are not sent.
pub open spec fn part_for(b: BlockView) -> Option<GPartView> {
    match b {
        BlockView::Text { text, .. } => Some(GPartView::Text(text)),
        BlockView::ToolUse { name, input, .. } => Some(GPartView::FunctionCall(name, input)),
        BlockView::ToolResult { tool_use_id, content, .. } => Some(
            GPartView::FunctionResponse(tool_use_id, content),
        ),
        BlockView::Thinking { .. } => None,
    }
}

pub open spec fn parts_for(s: Seq<BlockView>) -> Seq<GPartView>
    decreases s.len(),
{
    if s.len() == 0 {
        Seq::empty()
    } else {
        let rest = parts_for(s.drop_last());
        match part_for(s.last()) {
            Some(p) => rest.push(p),
            None => rest,
        }
    }
}

/// Gemini calls the assistant `model`; other roles keep their name.
pub open spec fn role_for(role: Seq<char>) -> Seq<char> {
    if role == "assistant"@ {
        "model"@
    } else {
        role
    }
}

/// The contents of a conversation: one entry per message that has at least
/// one part to send.
pub open spec fn contents_for(msgs: Seq<Message>) -> Seq<GContentView>
    decreases msgs.len(),
{
    if msgs.len() == 0 {
        Seq::empty()
    } else {
        let rest = contents_for(msgs.drop_last());
        let m = msgs.last();
        let parts = parts_for(blocks_view(m.content@));
        if parts.len() > 0 {
            rest.push(GContentView { role: role_for(m.role@), parts })
        } else {
            rest
        }
    }
}

pub open spec fn decl_for(t: Tool) -> GDeclView {
    GDeclView { name: t.name@, description: t.description@, parameters: t.input_schema }
}

/// The generation settings, present when any of them is: the sampling
/// settings as given, and the output limit when it is positive.
pub open spec fn generation_for(req: MessageRequest) -> Option<GeminiGenerationConfig> {
    if req.temperature is Some || req.top_p is Some || req.max_tokens > 0 {
        Some(
            GeminiGenerationConfig {
                temperature: req.temperature,
                top_p: req.top_p,
                max_output_tokens: if req.max_tokens > 0 {
                    Some(req.max_tokens)
                } else {
                    None
                },
            },
        )
    } else {
        None
    }
}

/// The `generateContent` body for a request.
pub open spec fn spec_convert_request(req: MessageRequest) -> GRequestView {
    GRequestView {
        system_instruction: match req.system {
            Some(s) => Some(system_text(s)),
            None => None,
        },
        contents: contents_for(req.messages@),
        tools: match req.tools {
            Some(ts) => Some(ts@.map_values(|t: Tool| decl_for(t))),
            None => None,
        },
        generation_config: generation_for(req),
    }
}

fn part_for_exec(b: &ContentBlock) -> (r: Option<GeminiPart>)
    ensures
        match r {
            Some(p) => part_for(b@) == Some(p@),
            None => part_for(b@) is None,
        },
{
    match b {
        ContentBlock::Text { text, .. } => Some(GeminiPart::Text { text: text.clone() }),
        ContentBlock::ToolUse { name, input, .. } => Some(
            GeminiPart::FunctionCall { name: name.clone(), args: input.clone() },
        ),
        ContentBlock::ToolResult { tool_use_id, content, .. } => Some(
            GeminiPart::FunctionResponse { name: tool_use_id.clone(), result: content.clone() },
        ),
        ContentBlock::Thinking { .. } => None,
    }
}

fn parts_of_message(m: &Message) -> (r: Vec<GeminiPart>)
    ensures
        r@.map_values(|p: GeminiPart| p@) == parts_for(blocks_view(m.content@)),
{
    let ghost bv = blocks_view(m.content@);
    let mut out: Vec<GeminiPart> = Vec::new();
    let mut i: usize = 0;
    while i < m.content.len()
        invariant
            i <= m.content@.len(),
            bv == blocks_view(m.content@),
            out@.map_values(|p: GeminiPart| p@) == parts_for(bv.take(i as int)),
        decreases m.content@.len() - i,
    {
        proof {
            assert(bv.take(i + 1).drop_last() =~= bv.take(i as int));
            assert(bv.take(i + 1).last() == m.content@[i as int]@);
        }
        match part_for_exec(&m.content[i]) {
            Some(p) => {
                out.push(p);
                assert(out@.map_values(|p: GeminiPart| p@) =~= parts_for(bv.take(i + 1)));
            },
            None => {},
        }
        i = i + 1;
    }
    assert(bv.take(m.content@.len() as int) =~= bv);
    out
}

fn role_for_exec(role: &String) -> (r: String)
    ensures
        r@ == role_for(role@),
{
    if str_eq(role.as_str(), "assistant") {
        "model".to_owned()
    } else {
        role.clone()
    }
}

/// The `generateContent` body for a request: the system prompt as a system
/// instruction, one content entry per message with something to send (the
/// assistant as `model`, tool calls and results as function calls and
/// responses, thinking left out), the tools as function declarations, and
/// the generation settings.
pub fn convert_request(request: &MessageRequest) -> (r: GeminiRequest)
    ensures
        r@ == spec_convert_request(*request),
{
    let system_instruction = match &request.system {
        Some(s) => Some(system_prompt_text(s)),
        None => None,
    };
    let mut contents: Vec<GeminiContent> = Vec::new();
    let mut i: usize = 0;
    while i < request.messages.len()
        invariant
            i <= request.messages@.len(),
            contents@.map_values(|c: GeminiContent| c@) == contents_for(
                request.messages@.take(i as int),
            ),
        decreases request.messages@.len() - i,
    {
        proof {
            assert(request.messages@.take(i + 1).drop_last() =~= request.messages@.take(i as int));
        }
        let m = &request.messages[i];
        let parts = parts_of_message(m);
        if parts.len() > 0 {
            contents.push(GeminiContent { role: role_for_exec(&m.role), parts });
            assert(contents@.map_values(|c: GeminiContent| c@) =~= contents_for(
                request.messages@.take(i + 1),
            ));
        }
        i = i + 1;
    }
    assert(request.messages@.take(request.messages@.len() as int) =~= request.messages@);
    let tools = match &request.tools {
        Some(ts) => {
            let mut out: Vec<GeminiFunctionDeclaration> = Vec::new();
            let mut k: usize = 0;
            while k < ts.len()
                invariant
                    k <= ts@.len(),
                    out@.len() == k,
                    forall|j: int| 0 <= j < k ==> (#[trigger] out@[j])@ == decl_for(ts@[j]),
                decreases ts@.len() - k,
            {
                let t = &ts[k];
                out.push(
                    GeminiFunctionDeclaration {
                        name: t.name.clone(),
                        description: t.description.clone(),
                        parameters: t.input_schema.clone(),
                    },
                );
                k = k + 1;
            }
            assert(out@.map_values(|d: GeminiFunctionDeclaration| d@) =~= ts@.map_values(
                |t: Tool| decl_for(t),
            ));
            Some(out)
        },
        None => None,
    };
    let generation_config = if request.temperature.is_some() || request.top_p.is_some()
        || request.max_tokens > 0 {
        Some(
            GeminiGenerationConfig {
                temperature: request.temperature,
                top_p: request.top_p,
                max_output_tokens: if request.max_tokens > 0 {
                    Some(request.max_tokens)
                } else {
                    None
                },
            },
        )
    } else {
        None
    };
    GeminiRequest { system_instruction, contents, tools, generation_config }
}

/// A `functionCall` object, by the fields the client reads (`args` is JSON
/// null where there is none).
#[derive(Clone, Debug)]
pub struct GeminiFunctionCallJson {
    pub name: Option<String>,
    pub args: serde_json::Value,
}

/// A part of a candidate's content: its `text` when it is a string, its
/// `functionCall` when it has one.
#[derive(Clone, Debug)]
pub struct GeminiPartJson {
    pub text: Option<String>,
    pub function_call: Option<GeminiFunctionCallJson>,
}

/// A candidate: the `parts` of its content when they form an array, and its
/// `finishReason` when it is a string.
#[derive(Clone, Debug)]
pub struct GeminiCandidateJson {
    pub parts: Option<Vec<GeminiPartJson>>,
    pub finish_reason: Option<String>,
}

/// A `generateContent` response (or one record of a stream), by the fields
/// the client reads; `usage_metadata` holds `promptTokenCount` as the input
/// and `candidatesTokenCount` as the output count.
#[derive(Clone, Debug)]
pub struct GeminiResponseJson {
    pub id: Option<String>,
    pub candidates: Option<Vec<GeminiCandidateJson>>,
    pub usage_metadata: Option<UsageJson>,
}

/// The first candidate, when there is one.
pub open spec fn first_candidate(resp: GeminiResponseJson) -> Option<GeminiCandidateJson> {
    match resp.candidates {
        Some(v) => if v@.len() > 0 {
            Some(v@[0])
        } else {
            None
        },
        None => None,
    }
}

/// The parts of the first candidate (none where there are none).
pub open spec fn candidate_parts(resp: GeminiResponseJson) -> Seq<GeminiPartJson> {
    match first_candidate(resp) {
        Some(c) => match c.parts {
            Some(p) => p@,
            None => Seq::empty(),
        },
        None => Seq::empty(),
    }
}

/// Whether a part is a function call (a part with text is a text part).
pub open spec fn is_call(p: GeminiPartJson) -> bool {
    p.text is None && p.function_call is Some
}

/// The number of function-call parts.
pub open spec fn call_count(parts: Seq<GeminiPartJson>) -> nat
    decreases parts.len(),
{
    if parts.len() == 0 {
        0
    } else {
        call_count(parts.drop_last()) + if is_call(parts.last()) {
            1nat
        } else {
            0nat
        }
    }
}

/// The content blocks of the parts, the `k`-th function call getting the
/// id `ids[k]`; a function call without a name is dropped.
pub open spec fn blocks_from_parts(parts: Seq<GeminiPartJson>, ids: Seq<Seq<char>>) -> Seq<BlockView>
    decreases parts.len(),
{
    if parts.len() == 0 {
        Seq::empty()
    } else {
        let rest = blocks_from_parts(parts.drop_last(), ids);
        let p = parts.last();
        match p.text {
            Some(t) => rest.push(BlockView::Text { text: t@, cache_control: None }),
            None => match p.function_call {
                Some(f) => match f.name {
                    Some(n) => rest.push(
                        BlockView::ToolUse {
                            id: ids[call_count(parts.drop_last()) as int],
                            name: n@,
                            input: f.args,
                            caller: None,
                        },
                    ),
                    None => rest,
                },
                None => rest,
            },
        }
    }
}

/// The response the client makes of a `generateContent` response, given the
/// ids of its function calls.
pub open spec fn spec_convert_response(
    resp: GeminiResponseJson,
    model: Seq<char>,
    ids: Seq<Seq<char>>,
) -> ResponseView {
    ResponseView {
        id: str_or(resp.id, ""@),
        message_type: "message"@,
        role: "assistant"@,
        content: blocks_from_parts(candidate_parts(resp), ids),
        model,
        stop_reason: match first_candidate(resp) {
            Some(c) => opt_chars(c.finish_reason),
            None => None,
        },
        stop_sequence: None,
        container: None,
        usage: spec_usage(resp.usage_metadata),
    }
}

pub open spec fn is_lower_hex(c: char) -> bool {
    ('0' <= c && c <= '9') || ('a' <= c && c <= 'f')
}

/// An id of the form `call_` followed by 32 lower-case hexadecimal digits.
pub open spec fn is_call_id(s: Seq<char>) -> bool {
    &&& s.len() == 37
    &&& s.take(5) == "call_"@
    &&& forall|i: int| 5 <= i < 37 ==> is_lower_hex(#[trigger] s[i])
}

/// 32 lower-case hexadecimal digits.
pub open spec fn is_uuid_hex(s: Seq<char>) -> bool {
    &&& s.len() == 32
    &&& forall|i: int| 0 <= i < 32 ==> is_lower_hex(#[trigger] s[i])
}

/// `uuid::Uuid::new_v4().as_simple().to_string()`: the 32 lower-case
/// hexadecimal digits of a random version-4 UUID (the value itself is not
/// stated, being random; `new_v4` panics only when the system's random
/// source fails).
#[verifier::external_body]
fn random_uuid_hex() -> (r: String)
    ensures
        is_uuid_hex(r@),
{
    uuid::Uuid::new_v4().as_simple().to_string()
}

/// A fresh function-call id: `call_` followed by the digits of a random UUID.
fn new_call_id() -> (r: String)
    ensures
        is_call_id(r@),
{
    let hex = random_uuid_hex();
    let mut id = "call_".to_owned();
    append_str(&mut id, hex.as_str());
    proof {
        reveal_strlit("call_");
        assert(id@.take(5) =~= "call_"@);
        assert forall|i: int| 5 <= i < 37 implies is_lower_hex(#[trigger] id@[i]) by {
            assert(id@[i] == hex@[i - 5]);
        }
    }
    id
}

fn count_calls(parts: &Vec<GeminiPartJson>) -> (r: usize)
    ensures
        r == call_count(parts@),
{
    let mut n: usize = 0;
    let mut i: usize = 0;
    while i < parts.len()
        invariant
            i <= parts@.len(),
            n == call_count(parts@.take(i as int)),
            n <= i,
        decreases parts@.len() - i,
    {
        proof {
            assert(parts@.take(i + 1).drop_last() =~= parts@.take(i as int));
        }
        if parts[i].text.is_none() && parts[i].function_call.is_some() {
            n = n + 1;
        }
        i = i + 1;
    }
    assert(parts@.take(parts@.len() as int) =~= parts@);
    n
}

fn blocks_from_parts_exec(parts: &Vec<GeminiPartJson>, ids: &Vec<String>) -> (r: Vec<ContentBlock>)
    requires
        ids@.len() >= call_count(parts@),
    ensures
        blocks_view(r@) == blocks_from_parts(parts@, ids@.map_values(|s: String| s@)),
{
    let ghost idv = ids@.map_values(|s: String| s@);
    let mut out: Vec<ContentBlock> = Vec::new();
    let mut calls: usize = 0;
    let mut i: usize = 0;
    let nids = ids.len();
    while i < parts.len()
        invariant
            i <= parts@.len(),
            nids == ids@.len(),
            idv == ids@.map_values(|s: String| s@),
            ids@.len() >= call_count(parts@),
            calls == call_count(parts@.take(i as int)),
            blocks_view(out@) == blocks_from_parts(parts@.take(i as int), idv),
        decreases parts@.len() - i,
    {
        proof {
            assert(parts@.take(i + 1).drop_last() =~= parts@.take(i as int));
            lemma_call_count_prefix(parts@, i + 1);
        }
        let p = &parts[i];
        match &p.text {
            Some(t) => {
                out.push(ContentBlock::Text { text: t.clone(), cache_control: None });
                assert(blocks_view(out@) =~= blocks_from_parts(parts@.take(i + 1), idv));
            },
            None => match &p.function_call {
                Some(f) => {
                    match &f.name {
                        Some(n) => {
                            out.push(
                                ContentBlock::ToolUse {
                                    id: ids[calls].clone(),
                                    name: n.clone(),
                                    input: f.args.clone(),
                                    caller: None,
                                },
                            );
                            assert(blocks_view(out@) =~= blocks_from_parts(parts@.take(i + 1), idv));
                        },
                        None => {},
                    }
                    calls = calls + 1;
                },
                None => {},
            },
        }
        i = i + 1;
    }
    assert(parts@.take(parts@.len() as int) =~= parts@);
    out
}

proof fn lemma_call_count_prefix(parts: Seq<GeminiPartJson>, n: int)
    requires
        0 <= n <= parts.len(),
    ensures
        call_count(parts.take(n)) <= call_count(parts),
    decreases parts.len(),
{
    if n < parts.len() {
        assert(parts.drop_last().take(n) =~= parts.take(n));
        lemma_call_count_prefix(parts.drop_last(), n);
    } else {
        assert(parts.take(n) =~= parts);
    }
}

/// The first candidate of a response, when there is one.
fn first_candidate_exec(resp: &GeminiResponseJson) -> (r: Option<&GeminiCandidateJson>)
    ensures
        match r {
            Some(c) => first_candidate(*resp) == Some(*c),
            None => first_candidate(*resp) is None,
        },
{
    match &resp.candidates {
        Some(v) => if v.len() > 0 {
            Some(&v[0])
        } else {
            None
        },
        None => None,
    }
}

/// The number of parts of the first candidate of a response.
pub fn candidate_part_count(resp: &GeminiResponseJson) -> (r: usize)
    ensures
        r == candidate_parts(*resp).len(),
{
    match first_candidate_exec(resp) {
        Some(c) => match &c.parts {
            Some(p) => p.len(),
            None => 0,
        },
        None => 0,
    }
}

fn no_parts() -> (r: Vec<GeminiPartJson>)
    ensures
        r@ == Seq::<GeminiPartJson>::empty(),
{
    Vec::new()
}

/// The client's response for a `generateContent` response, the `k`-th
/// function call getting the id `ids[k]`: the text and function-call parts
/// of the first candidate in order, its finish reason, and the token counts.
pub fn convert_response_with_ids(resp_json: &GeminiResponseJson, model: &str, ids: &Vec<String>) -> (r:
    MessageResponse)
    requires
        ids@.len() >= call_count(candidate_parts(*resp_json)),
    ensures
        r@ == spec_convert_response(*resp_json, model@, ids@.map_values(|s: String| s@)),
{
    let first = first_candidate_exec(resp_json);
    let empty = no_parts();
    let parts: &Vec<GeminiPartJson> = match first {
        Some(c) => match &c.parts {
            Some(p) => p,
            None => &empty,
        },
        None => &empty,
    };
    let content = blocks_from_parts_exec(parts, ids);
    let stop_reason = match first {
        Some(c) => clone_opt(&c.finish_reason),
        None => None,
    };
    MessageResponse {
        id: string_or(&resp_json.id, ""),
        message_type: "message".to_owned(),
        role: "assistant".to_owned(),
        content,
        model: model.to_owned(),
        stop_reason,
        stop_sequence: None,
        container: None,
        usage: usage_from_json(&resp_json.usage_metadata),
    }
}

/// Fresh ids for `n` function calls.
fn new_call_ids(n: usize) -> (r: Vec<String>)
    ensures
        r@.len() == n,
        forall|i: int| 0 <= i < n ==> is_call_id(#[trigger] r@[i]@),
{
    let mut ids: Vec<String> = Vec::new();
    let mut i: usize = 0;
    while i < n
        invariant
            i <= n,
            ids@.len() == i,
            forall|k: int| 0 <= k < i ==> is_call_id(#[trigger] ids@[k]@),
        decreases n - i,
    {
        ids.push(new_call_id());
        i = i + 1;
    }
    ids
}

/// The client's response for a `generateContent` response; each function
/// call gets a fresh id `call_<32 hex digits>`, and otherwise the result is
/// that of `convert_response_with_ids`.
pub fn convert_response(resp_json: &GeminiResponseJson, model: &str) -> (r: MessageResponse)
    ensures
        exists|ids: Seq<Seq<char>>|
            ids.len() == call_count(candidate_parts(*resp_json)) && (forall|i: int|
                0 <= i < ids.len() ==> is_call_id(#[trigger] ids[i])) && r@
                == spec_convert_response(*resp_json, model@, ids),
{
    let first = first_candidate_exec(resp_json);
    let n = match first {
        Some(c) => match &c.parts {
            Some(p) => count_calls(p),
            None => 0,
        },
        None => 0,
    };
    let ids = new_call_ids(n);
    let r = convert_response_with_ids(resp_json, model, &ids);
    proof {
        let idv = ids@.map_values(|s: String| s@);
        assert(forall|i: int| 0 <= i < idv.len() ==> is_call_id(#[trigger] idv[i]) == is_call_id(ids@[i]@));
    }
    r
}


/// The events of the parts of a stream record, given the index the next
/// block gets, and that index afterwards: each text part is a whole text block
/// (start, delta, stop), each function call a tool use block (start, stop)
/// with the next id; other parts yield nothing.
pub open spec fn stream_parts(next: u32, parts: Seq<GeminiPartJson>, ids: Seq<Seq<char>>) -> (
    u32,
    Seq<EventView>,
)
    decreases parts.len(),
{
    if parts.len() == 0 {
        (next, Seq::empty())
    } else {
        let prev = stream_parts(next, parts.drop_last(), ids);
        let i = prev.0;
        let p = parts.last();
        match p.text {
            Some(t) => (
                (i + 1) as u32,
                prev.1 + seq![
                    EventView::BlockStart(i, StartView::Text(Seq::empty())),
                    EventView::BlockDelta(i, DeltaView::Text(t@)),
                    EventView::BlockStop(i),
                ],
            ),
            None => match p.function_call {
                Some(f) => (
                    (i + 1) as u32,
                    prev.1 + seq![
                        EventView::BlockStart(
                            i,
                            StartView::ToolUse(
                                ids[call_count(parts.drop_last()) as int],
                                str_or(f.name, ""@),
                                f.args,
                                None,
                            ),
                        ),
                        EventView::BlockStop(i),
                    ],
                ),
                None => prev,
            },
        }
    }
}

/// The events one stream record becomes: those of its parts, then, when it
/// reports usage, a message delta with the finish reason and the counts.
pub open spec fn spec_stream_chunk(next: u32, chunk: GeminiResponseJson, ids: Seq<Seq<char>>) -> (
    u32,
    Seq<EventView>,
) {
    let parts = stream_parts(next, candidate_parts(chunk), ids);
    (
        parts.0,
        parts.1 + match chunk.usage_metadata {
            Some(u) => seq![
                EventView::MessageDelta(
                    match first_candidate(chunk) {
                        Some(c) => opt_chars(c.finish_reason),
                        None => None,
                    },
                    None,
                    Some(spec_usage(Some(u))),
                ),
            ],
            None => Seq::empty(),
        },
    )
}

proof fn lemma_stream_parts_index(next: u32, parts: Seq<GeminiPartJson>, ids: Seq<Seq<char>>)
    requires
        next + parts.len() <= u32::MAX,
    ensures
        stream_parts(next, parts, ids).0 <= next + parts.len(),
        stream_parts(next, parts, ids).0 >= next,
    decreases parts.len(),
{
    if parts.len() > 0 {
        lemma_stream_parts_index(next, parts.drop_last(), ids);
    }
}

/// The state of a streamed Gemini response: the index the next content
/// block gets.
pub struct GeminiStreamState {
    content_index: u32,
}

impl View for GeminiStreamState {
    type V = u32;

    closed spec fn view(&self) -> u32 {
        self.content_index
    }
}

impl GeminiStreamState {
    pub fn new() -> (r: Self)
        ensures
            r@ == 0,
    {
        GeminiStreamState { content_index: 0 }
    }

    /// The index the next content block gets.
    pub fn next_index(&self) -> (r: u32)
        ensures
            r == self@,
    {
        self.content_index
    }

    /// The events one stream record becomes, the `k`-th function call of the
    /// record getting the id `ids[k]`.
    pub fn on_chunk_with_ids(&mut self, chunk: &GeminiResponseJson, ids: &Vec<String>) -> (r: Vec<
        StreamEvent,
    >)
        requires
            old(self)@ + candidate_parts(*chunk).len() <= u32::MAX,
            ids@.len() >= call_count(candidate_parts(*chunk)),
        ensures
            final(self)@ == spec_stream_chunk(old(self)@, *chunk, ids@.map_values(|s: String| s@)).0,
            crate::models::events_view(r@) == spec_stream_chunk(
                old(self)@,
                *chunk,
                ids@.map_values(|s: String| s@),
            ).1,
    {
        let ghost idv = ids@.map_values(|s: String| s@);
        let ghost next0 = self.content_index;
        let first = first_candidate_exec(chunk);
        let empty = no_parts();
        let parts: &Vec<GeminiPartJson> = match first {
            Some(c) => match &c.parts {
                Some(p) => p,
                None => &empty,
            },
            None => &empty,
        };
        assert(parts@ == candidate_parts(*chunk));
        let mut out: Vec<StreamEvent> = Vec::new();
        let mut calls: usize = 0;
        let nids = ids.len();
        let mut i: usize = 0;
        while i < parts.len()
            invariant
                i <= parts@.len(),
                parts@ == candidate_parts(*chunk),
                next0 + parts@.len() <= u32::MAX,
                nids == ids@.len(),
                idv == ids@.map_values(|s: String| s@),
                ids@.len() >= call_count(parts@),
                calls == call_count(parts@.take(i as int)),
                self.content_index == stream_parts(next0, parts@.take(i as int), idv).0,
                crate::models::events_view(out@) == stream_parts(next0, parts@.take(i as int), idv).1,
            decreases parts@.len() - i,
        {
            proof {
                assert(parts@.take(i + 1).drop_last() =~= parts@.take(i as int));
                lemma_call_count_prefix(parts@, i + 1);
                lemma_stream_parts_index(next0, parts@.take(i as int), idv);
            }
            let ghost before = crate::models::events_view(out@);
            let p = &parts[i];
            let idx = self.content_index;
            match &p.text {
                Some(t) => {
                    out.push(
                        StreamEvent::ContentBlockStart {
                            index: idx,
                            content_block: ContentBlockStart::Text { text: String::new() },
                        },
                    );
                    out.push(
                        StreamEvent::ContentBlockDelta {
                            index: idx,
                            delta: Delta::TextDelta { text: t.clone() },
                        },
                    );
                    out.push(StreamEvent::ContentBlockStop { index: idx });
                    self.content_index = idx + 1;
                    assert(crate::models::events_view(out@) =~= stream_parts(
                        next0,
                        parts@.take(i + 1),
                        idv,
                    ).1);
                },
                None => match &p.function_call {
                    Some(f) => {
                        out.push(
                            StreamEvent::ContentBlockStart {
                                index: idx,
                                content_block: ContentBlockStart::ToolUse {
                                    id: ids[calls].clone(),
                                    name: string_or(&f.name, ""),
                                    input: f.args.clone(),
                                    caller: None,
                                },
                            },
                        );
                        out.push(StreamEvent::ContentBlockStop { index: idx });
                        self.content_index = idx + 1;
                        calls = calls + 1;
                        assert(crate::models::events_view(out@) =~= stream_parts(
                            next0,
                            parts@.take(i + 1),
                            idv,
                        ).1);
                    },
                    None => {},
                },
            }
            i = i + 1;
        }
        assert(parts@.take(parts@.len() as int) =~= parts@);
        let ghost before = crate::models::events_view(out@);
        match &chunk.usage_metadata {
            Some(u) => {
                let finish = match first {
                    Some(c) => clone_opt(&c.finish_reason),
                    None => None,
                };
                out.push(
                    StreamEvent::MessageDelta {
                        delta: MessageDelta { stop_reason: finish, stop_sequence: None },
                        usage: Some(usage_from_json(&Some(*u))),
                    },
                );
            },
            None => {},
        }
        assert(crate::models::events_view(out@) =~= spec_stream_chunk(next0, *chunk, idv).1);
        out
    }

    /// The events one stream record becomes; each function call gets a
    /// fresh id `call_<32 hex digits>`, and otherwise the result is that of
    /// `on_chunk_with_ids`.
    pub fn on_chunk(&mut self, chunk: &GeminiResponseJson) -> (r: Vec<StreamEvent>)
        requires
            old(self)@ + candidate_parts(*chunk).len() <= u32::MAX,
        ensures
            exists|ids: Seq<Seq<char>>|
                ids.len() == call_count(candidate_parts(*chunk)) && (forall|i: int|
                    0 <= i < ids.len() ==> is_call_id(#[trigger] ids[i])) && final(self)@
                    == spec_stream_chunk(old(self)@, *chunk, ids).0 && crate::models::events_view(
                    r@,
                ) == spec_stream_chunk(old(self)@, *chunk, ids).1,
    {
        let first = first_candidate_exec(chunk);
        let n = match first {
            Some(c) => match &c.parts {
                Some(p) => count_calls(p),
                None => 0,
            },
            None => 0,
        };
        let ids = new_call_ids(n);
        let r = self.on_chunk_with_ids(chunk, &ids);
        proof {
            let idv = ids@.map_values(|s: String| s@);
            assert(forall|i: int| 0 <= i < idv.len() ==> is_call_id(#[trigger] idv[i]) == is_call_id(ids@[i]@));
        }
        r
    }
}


/// Every content entry of a Gemini request has at least one part, and none
/// is attributed to `assistant` (Gemini calls it `model`).
pub proof fn law_contents_nonempty(msgs: Seq<Message>)
    ensures
        forall|i: int|
            0 <= i < contents_for(msgs).len() ==> (#[trigger] contents_for(msgs)[i]).parts.len() > 0
                && contents_for(msgs)[i].role != "assistant"@,
    decreases msgs.len(),
{
    reveal_strlit("assistant");
    reveal_strlit("model");
    if msgs.len() > 0 {
        law_contents_nonempty(msgs.drop_last());
        let rest = contents_for(msgs.drop_last());
        let m = msgs.last();
        let parts = parts_for(blocks_view(m.content@));
        let r = role_for(m.role@);
        if m.role@ == "assistant"@ {
            assert(r == "model"@);
            assert(r.len() != "assistant"@.len());
        }
        assert forall|i: int| 0 <= i < contents_for(msgs).len() implies (#[trigger] contents_for(
            msgs,
        )[i]).parts.len() > 0 && contents_for(msgs)[i].role != "assistant"@ by {
            if i < rest.len() {
                assert(contents_for(msgs)[i] == rest[i]);
            }
        }
    }
}

/// Each content entry of a Gemini request comes from one message of the
/// conversation: it carries that message's parts, and its role is the message's
/// role, except that `assistant` is sent as `model`; any other role (`user`
/// among them) is passed through unchanged.
pub proof fn law_content_roles(msgs: Seq<Message>)
    ensures
        forall|i: int|
            0 <= i < contents_for(msgs).len() ==> exists|j: int|
                0 <= j < msgs.len() && (#[trigger] contents_for(msgs)[i]).parts == parts_for(
                    blocks_view(msgs[j].content@),
                ) && contents_for(msgs)[i].role == (if msgs[j].role@ == "assistant"@ {
                    "model"@
                } else {
                    msgs[j].role@
                }),
    decreases msgs.len(),
{
    if msgs.len() > 0 {
        let init = msgs.drop_last();
        law_content_roles(init);
        let rest = contents_for(init);
        assert forall|i: int| 0 <= i < contents_for(msgs).len() implies exists|j: int|
            0 <= j < msgs.len() && (#[trigger] contents_for(msgs)[i]).parts == parts_for(
                blocks_view(msgs[j].content@),
            ) && contents_for(msgs)[i].role == (if msgs[j].role@ == "assistant"@ {
                "model"@
            } else {
                msgs[j].role@
            }) by {
            if i < rest.len() {
                assert(contents_for(msgs)[i] == rest[i]);
                let j = choose|j: int|
                    0 <= j < init.len() && (#[trigger] rest[i]).parts == parts_for(
                        blocks_view(init[j].content@),
                    ) && rest[i].role == (if init[j].role@ == "assistant"@ {
                        "model"@
                    } else {
                        init[j].role@
                    });
                assert(init[j] == msgs[j]);
            } else {
                assert(msgs[msgs.len() - 1] == msgs.last());
            }
        }
    }
}

/// A single message becomes one content entry when it has a part to send and
/// none otherwise; a `user` message keeps its role, an `assistant` message is
/// sent as `model`.
pub proof fn law_single_message_content(m: Message)
    ensures
        parts_for(blocks_view(m.content@)).len() > 0 && m.role@ == "user"@ ==> contents_for(seq![m])
            == seq![GContentView { role: "user"@, parts: parts_for(blocks_view(m.content@)) }],
        parts_for(blocks_view(m.content@)).len() > 0 && m.role@ == "assistant"@ ==> contents_for(
            seq![m],
        ) == seq![GContentView { role: "model"@, parts: parts_for(blocks_view(m.content@)) }],
        parts_for(blocks_view(m.content@)).len() > 0 && m.role@ != "assistant"@ ==> contents_for(
            seq![m],
        ) == seq![GContentView { role: m.role@, parts: parts_for(blocks_view(m.content@)) }],
        parts_for(blocks_view(m.content@)).len() == 0 ==> contents_for(seq![m]).len() == 0,
{
    reveal_strlit("user");
    reveal_strlit("assistant");
    let msgs = seq![m];
    assert(msgs.drop_last() =~= Seq::<Message>::empty());
    assert(msgs.last() == m);
    let parts = parts_for(blocks_view(m.content@));
    assert(contents_for(msgs.drop_last()).len() == 0);
    assert(contents_for(msgs.drop_last()) =~= Seq::<GContentView>::empty());
    if parts.len() > 0 {
        let c = GContentView { role: role_for(m.role@), parts };
        assert(contents_for(msgs) =~= seq![c]);
        if m.role@ == "user"@ {
            assert(m.role@ != "assistant"@) by {
                assert("user"@.len() != "assistant"@.len());
            }
            assert(c == GContentView { role: "user"@, parts });
        }
        if m.role@ == "assistant"@ {
            assert(c == GContentView { role: "model"@, parts });
        }
    }
}

/// What each content block becomes in a Gemini request: text as a text part,
/// a tool call as a `functionCall` with the tool's name and input, a tool
/// result as a `functionResponse` named by the tool-use id and carrying the
/// result; thinking is not sent. A message's parts follow its blocks in order.
pub proof fn law_gemini_parts(b: BlockView, bs: Seq<BlockView>)
    ensures
        (b matches BlockView::Text { text, .. }) ==> part_for(b) == Some(GPartView::Text(b->text)),
        (b matches BlockView::ToolUse { name, input, .. }) ==> part_for(b) == Some(
            GPartView::FunctionCall(b->ToolUse_name, b->ToolUse_input),
        ),
        (b matches BlockView::ToolResult { tool_use_id, content, .. }) ==> part_for(b) == Some(
            GPartView::FunctionResponse(b->ToolResult_tool_use_id, b->ToolResult_content),
        ),
        (b matches BlockView::Thinking { .. }) ==> part_for(b) is None,
        part_for(b) matches Some(q) ==> parts_for(bs.push(b)) == parts_for(bs).push(q),
        part_for(b) is None ==> parts_for(bs.push(b)) == parts_for(bs),
{
    assert(bs.push(b).drop_last() =~= bs);
}

/// The generation settings of a Gemini request: temperature and top-p as
/// given, the output limit when it is positive, and no settings at all when
/// none of the three is there.
pub proof fn law_generation_config(req: MessageRequest)
    ensures
        req.max_tokens > 0 ==> spec_convert_request(req).generation_config == Some(
            GeminiGenerationConfig {
                temperature: req.temperature,
                top_p: req.top_p,
                max_output_tokens: Some(req.max_tokens),
            },
        ),
        req.max_tokens == 0 && (req.temperature is Some || req.top_p is Some)
            ==> spec_convert_request(req).generation_config == Some(
            GeminiGenerationConfig {
                temperature: req.temperature,
                top_p: req.top_p,
                max_output_tokens: None,
            },
        ),
        req.max_tokens == 0 && req.temperature is None && req.top_p is None
            ==> spec_convert_request(req).generation_config is None,
        req.tools is None ==> spec_convert_request(req).tools is None,
        req.tools is Some ==> ({
            let ts = req.tools.unwrap()@;
            let out = spec_convert_request(req).tools.unwrap();
            &&& spec_convert_request(req).tools is Some
            &&& out.len() == ts.len()
            &&& forall|i: int|
                0 <= i < ts.len() ==> (#[trigger] out[i]).name == ts[i].name@ && out[i].description
                    == ts[i].description@ && out[i].parameters == ts[i].input_schema
        }),
        spec_convert_request(req).system_instruction == match req.system {
            Some(sp) => Some(system_text(sp)),
            None => None,
        },
{
}

/// A Gemini response becomes an assistant message of the requested model
/// whose stop reason is the first candidate's finish reason; a text part
/// becomes a text block, a named function call a tool call with that name, its
/// arguments and the first id, anything else nothing.
pub proof fn law_gemini_response(
    resp: GeminiResponseJson,
    model: Seq<char>,
    ids: Seq<Seq<char>>,
    p: GeminiPartJson,
)
    ensures
        spec_convert_response(resp, model, ids).role == "assistant"@,
        spec_convert_response(resp, model, ids).message_type == "message"@,
        spec_convert_response(resp, model, ids).model == model,
        spec_convert_response(resp, model, ids).stop_reason == match first_candidate(resp) {
            Some(c) => opt_chars(c.finish_reason),
            None => None,
        },
        p.text is Some ==> blocks_from_parts(seq![p], ids) == seq![
            BlockView::Text { text: p.text.unwrap()@, cache_control: None },
        ],
        p.text is None && p.function_call is Some && p.function_call.unwrap().name is Some
            ==> blocks_from_parts(seq![p], ids) == seq![
            BlockView::ToolUse {
                id: ids[0],
                name: p.function_call.unwrap().name.unwrap()@,
                input: p.function_call.unwrap().args,
                caller: None,
            },
        ],
        p.text is None && (p.function_call is None || p.function_call.unwrap().name is None)
            ==> blocks_from_parts(seq![p], ids).len() == 0,
{
    let ps = seq![p];
    assert(ps.drop_last() =~= Seq::<GeminiPartJson>::empty());
    assert(blocks_from_parts(ps.drop_last(), ids).len() == 0);
    assert(blocks_from_parts(ps.drop_last(), ids) =~= Seq::<BlockView>::empty());
    assert(call_count(ps.drop_last()) == 0);
    assert(ps.last() == p);
}

/// How a streamed Gemini part is read: a text part is a whole text block at
/// the next index (an empty start, the text as one delta, a stop); a function
/// call is a tool use block at the next index with the first id, the call's
/// name and arguments (a start and a stop); the index then moves on by one. Any
/// other part yields nothing. A record that reports usage ends with a message
/// delta carrying the first candidate's finish reason.
pub proof fn law_gemini_stream_part(
    next: u32,
    p: GeminiPartJson,
    ids: Seq<Seq<char>>,
    chunk: GeminiResponseJson,
)
    ensures
        p.text is Some ==> stream_parts(next, seq![p], ids) == (
            (next + 1) as u32,
            seq![
                EventView::BlockStart(next, StartView::Text(Seq::empty())),
                EventView::BlockDelta(next, DeltaView::Text(p.text.unwrap()@)),
                EventView::BlockStop(next),
            ],
        ),
        p.text is None && p.function_call is Some ==> stream_parts(next, seq![p], ids) == (
            (next + 1) as u32,
            seq![
                EventView::BlockStart(
                    next,
                    StartView::ToolUse(
                        ids[0],
                        str_or(p.function_call.unwrap().name, ""@),
                        p.function_call.unwrap().args,
                        None,
                    ),
                ),
                EventView::BlockStop(next),
            ],
        ),
        p.text is None && p.function_call is None ==> stream_parts(next, seq![p], ids) == (
            next,
            Seq::<EventView>::empty(),
        ),
        chunk.usage_metadata is Some ==> ({
            let evs = spec_stream_chunk(next, chunk, ids).1;
            evs.len() > 0 && evs.last() == EventView::MessageDelta(
                match first_candidate(chunk) {
                    Some(c) => opt_chars(c.finish_reason),
                    None => None,
                },
                None,
                Some(spec_usage(chunk.usage_metadata)),
            )
        }),
        chunk.usage_metadata is None ==> spec_stream_chunk(next, chunk, ids).1 == stream_parts(
            next,
            candidate_parts(chunk),
            ids,
        ).1,
{
    let ps = seq![p];
    assert(ps.drop_last() =~= Seq::<GeminiPartJson>::empty());
    assert(stream_parts(next, ps.drop_last(), ids) == (next, Seq::<EventView>::empty()));
    assert(call_count(ps.drop_last()) == 0);
    assert(ps.last() == p);
    if p.text is Some {
        assert(Seq::<EventView>::empty() + seq![
            EventView::BlockStart(next, StartView::Text(Seq::empty())),
            EventView::BlockDelta(next, DeltaView::Text(p.text.unwrap()@)),
            EventView::BlockStop(next),
        ] =~= seq![
            EventView::BlockStart(next, StartView::Text(Seq::empty())),
            EventView::BlockDelta(next, DeltaView::Text(p.text.unwrap()@)),
            EventView::BlockStop(next),
        ]);
    } else if p.function_call is Some {
        let e = seq![
            EventView::BlockStart(
                next,
                StartView::ToolUse(
                    ids[0],
                    str_or(p.function_call.unwrap().name, ""@),
                    p.function_call.unwrap().args,
                    None,
                ),
            ),
            EventView::BlockStop(next),
        ];
        assert(Seq::<EventView>::empty() + e =~= e);
    }
    let pe = stream_parts(next, candidate_parts(chunk), ids).1;
    assert(pe + Seq::<EventView>::empty() =~= pe);
}

/// A response has at most one content block per part of its first candidate.
pub proof fn law_blocks_from_parts_len(parts: Seq<GeminiPartJson>, ids: Seq<Seq<char>>)
    ensures
        blocks_from_parts(parts, ids).len() <= parts.len(),
    decreases parts.len(),
{
    if parts.len() > 0 {
        law_blocks_from_parts_len(parts.drop_last(), ids);
    }
}


proof fn lemma_stream_parts_starts(next: u32, parts: Seq<GeminiPartJson>, ids: Seq<Seq<char>>)
    requires
        next + parts.len() <= u32::MAX,
    ensures
        next <= stream_parts(next, parts, ids).0 <= next + parts.len(),
        start_indices(stream_parts(next, parts, ids).1) == index_run(
            next as int,
            stream_parts(next, parts, ids).0 as int,
        ),
    decreases parts.len(),
{
    if parts.len() == 0 {
        assert(start_indices(Seq::<EventView>::empty()) =~= index_run(next as int, next as int));
    } else {
        let q = parts.drop_last();
        lemma_stream_parts_starts(next, q, ids);
        let prev = stream_parts(next, q, ids);
        let r = stream_parts(next, parts, ids);
        if r.0 != prev.0 {
            let added = r.1.subrange(prev.1.len() as int, r.1.len() as int);
            assert(r.1 =~= prev.1 + added);
            lemma_start_indices_concat(prev.1, added);
            reveal_with_fuel(start_indices, 4);
            assert(start_indices(added) =~= seq![prev.0]);
            lemma_index_run_extend(next as int, prev.0 as int, r.0 as int);
            assert(index_run(prev.0 as int, r.0 as int) =~= seq![prev.0]);
        }
    }
}

/// The number of parts of the first candidates of a run of stream records.
pub open spec fn total_parts(chunks: Seq<GeminiResponseJson>) -> nat
    decreases chunks.len(),
{
    if chunks.len() == 0 {
        0
    } else {
        total_parts(chunks.drop_last()) + candidate_parts(chunks.last()).len()
    }
}

/// The events a run of stream records becomes, from a given next block
/// index, the `k`-th record's function calls taking their ids from `ids[k]`.
pub open spec fn stream_chunks(
    next: u32,
    chunks: Seq<GeminiResponseJson>,
    ids: Seq<Seq<Seq<char>>>,
) -> (u32, Seq<EventView>)
    decreases chunks.len(),
{
    if chunks.len() == 0 {
        (next, Seq::empty())
    } else {
        let prev = stream_chunks(next, chunks.drop_last(), ids);
        let step = spec_stream_chunk(prev.0, chunks.last(), ids[chunks.len() - 1]);
        (step.0, prev.1 + step.1)
    }
}

/// The whole event stream of a response: the opening message, the events of
/// its records from block index 0, and the closing stop.
pub open spec fn spec_stream(
    model: Seq<char>,
    chunks: Seq<GeminiResponseJson>,
    ids: Seq<Seq<Seq<char>>>,
) -> Seq<EventView> {
    seq![EventView::MessageStart(stream_start_view(model))] + stream_chunks(0, chunks, ids).1
        + seq![EventView::MessageStop]
}

proof fn lemma_stream_chunks(chunks: Seq<GeminiResponseJson>, ids: Seq<Seq<Seq<char>>>)
    requires
        total_parts(chunks) <= u32::MAX,
    ensures
        stream_chunks(0, chunks, ids).0 <= total_parts(chunks),
        start_indices(stream_chunks(0, chunks, ids).1) == index_run(
            0,
            stream_chunks(0, chunks, ids).0 as int,
        ),
    decreases chunks.len(),
{
    if chunks.len() == 0 {
        assert(start_indices(Seq::<EventView>::empty()) =~= index_run(0, 0));
    } else {
        let q = chunks.drop_last();
        lemma_stream_chunks(q, ids);
        let prev = stream_chunks(0, q, ids);
        let c = chunks.last();
        let cid = ids[chunks.len() - 1];
        let parts = stream_parts(prev.0, candidate_parts(c), cid);
        lemma_stream_parts_starts(prev.0, candidate_parts(c), cid);
        let usage: Seq<EventView> = match c.usage_metadata {
            Some(u) => seq![
                EventView::MessageDelta(
                    match first_candidate(c) {
                        Some(fc) => opt_chars(fc.finish_reason),
                        None => None,
                    },
                    None,
                    Some(spec_usage(Some(u))),
                ),
            ],
            None => Seq::empty(),
        };
        assert(spec_stream_chunk(prev.0, c, cid).1 == parts.1 + usage);
        reveal_with_fuel(start_indices, 2);
        assert(start_indices(usage) =~= Seq::<u32>::empty());
        lemma_start_indices_concat(parts.1, usage);
        lemma_start_indices_concat(prev.1, parts.1 + usage);
        lemma_index_run_extend(0, prev.0 as int, parts.0 as int);
        assert(start_indices(parts.1) + Seq::<u32>::empty() =~= start_indices(parts.1));
    }
}

/// A streamed response opens with the empty assistant message for the model
/// and closes with a stop, and its blocks are numbered 0, 1, 2, ... in the
/// order they start, across records (for fewer than 2^32 parts in all).
pub proof fn law_stream_shape(model: Seq<char>, chunks: Seq<GeminiResponseJson>, ids: Seq<Seq<Seq<char>>>)
    requires
        total_parts(chunks) <= u32::MAX,
    ensures
        spec_stream(model, chunks, ids)[0] == EventView::MessageStart(stream_start_view(model)),
        spec_stream(model, chunks, ids).last() == EventView::MessageStop,
        start_indices(spec_stream(model, chunks, ids)) == index_run(
            0,
            stream_chunks(0, chunks, ids).0 as int,
        ),
{
    lemma_stream_chunks(chunks, ids);
    let head = seq![EventView::MessageStart(stream_start_view(model))];
    let body = stream_chunks(0, chunks, ids).1;
    let tail = seq![EventView::MessageStop];
    lemma_start_indices_concat(head, body);
    lemma_start_indices_concat(head + body, tail);
    reveal_with_fuel(start_indices, 2);
    assert(start_indices(head) =~= Seq::<u32>::empty());
    assert(start_indices(tail) =~= Seq::<u32>::empty());
    assert(Seq::<u32>::empty() + start_indices(body) + Seq::<u32>::empty() =~= start_indices(body));
}


proof fn lemma_stream_chunks_ids(
    next: u32,
    chunks: Seq<GeminiResponseJson>,
    a: Seq<Seq<Seq<char>>>,
    b: Seq<Seq<Seq<char>>>,
)
    requires
        a.len() >= chunks.len(),
        b.len() >= chunks.len(),
        forall|k: int| 0 <= k < chunks.len() ==> a[k] == b[k],
    ensures
        stream_chunks(next, chunks, a) == stream_chunks(next, chunks, b),
    decreases chunks.len(),
{
    if chunks.len() > 0 {
        lemma_stream_chunks_ids(next, chunks.drop_last(), a, b);
        assert(a[chunks.len() - 1] == b[chunks.len() - 1]);
    }
}

/// A streamed Gemini response as it is driven: the opening event, the events
/// of each record read from the body, a read failure if one comes, and the
/// closing stop.
pub struct GeminiStream {
    state: GeminiStreamState,
    failed: bool,
    finished: bool,
    model: Ghost<Seq<char>>,
    consumed: Ghost<Seq<GeminiResponseJson>>,
    ids: Ghost<Seq<Seq<Seq<char>>>>,
    emitted: Ghost<Seq<OutputView>>,
}

/// The course of a stream so far: the model, the records taken in with the
/// ids their function calls got, whether reading failed or the stream is
/// finished, and all it handed out.
pub struct GStreamView {
    pub model: Seq<char>,
    pub consumed: Seq<GeminiResponseJson>,
    pub ids: Seq<Seq<Seq<char>>>,
    pub failed: bool,
    pub finished: bool,
    pub emitted: Seq<OutputView>,
}

impl View for GeminiStream {
    type V = GStreamView;

    closed spec fn view(&self) -> GStreamView {
        GStreamView {
            model: self.model@,
            consumed: self.consumed@,
            ids: self.ids@,
            failed: self.failed,
            finished: self.finished,
            emitted: self.emitted@,
        }
    }
}

/// What a stream has handed out after taking in its records: the opening
/// event, the events so far, and then the failure and the stop when they
/// have come.
pub open spec fn stream_so_far(s: GStreamView) -> Seq<OutputView> {
    seq![OutputView::Event(EventView::MessageStart(stream_start_view(s.model)))] + as_outputs(
        stream_chunks(0, s.consumed, s.ids).1,
    ) + (if s.failed {
        seq![OutputView::ReadError]
    } else {
        Seq::empty()
    }) + (if s.finished {
        seq![OutputView::Event(EventView::MessageStop)]
    } else {
        Seq::empty()
    })
}

impl GeminiStream {
    /// The stream is consistent: its state and what it handed out follow
    /// from the records taken in.
    pub closed spec fn wf(&self) -> bool {
        &&& self.ids@.len() == self.consumed@.len()
        &&& self.state@ == stream_chunks(0, self.consumed@, self.ids@).0
        &&& self.emitted@ == stream_so_far(self@)
    }

    /// A stream for `model`, and the event that opens it.
    pub fn start(model: &str) -> (r: (GeminiStream, StreamEvent))
        ensures
            r.0.wf(),
            r.0@.model == model@,
            r.0@.consumed.len() == 0,
            !r.0@.failed,
            !r.0@.finished,
            r.1@ == EventView::MessageStart(stream_start_view(model@)),
    {
        let first = stream_start_event(model);
        let ghost em = seq![OutputView::Event(first@)];
        let ghost md = model@;
        let ghost none = Seq::<GeminiResponseJson>::empty();
        let ghost no_ids = Seq::<Seq<Seq<char>>>::empty();
        let s = GeminiStream {
            state: GeminiStreamState::new(),
            failed: false,
            finished: false,
            model: Ghost(md),
            consumed: Ghost(none),
            ids: Ghost(no_ids),
            emitted: Ghost(em),
        };
        proof {
            assert(stream_chunks(0, none, no_ids).1 =~= Seq::<EventView>::empty());
            assert(s.emitted@ =~= stream_so_far(s@));
        }
        (s, first)
    }

    /// The index the next block gets.
    pub fn next_index(&self) -> (r: u32)
        requires
            self.wf(),
        ensures
            r == stream_chunks(0, self@.consumed, self@.ids).0,
    {
        self.state.next_index()
    }

    /// Whether reading has failed.
    pub fn has_failed(&self) -> (r: bool)
        ensures
            r == self@.failed,
    {
        self.failed
    }

    /// Whether the stream is finished.
    pub fn is_finished(&self) -> (r: bool)
        ensures
            r == self@.finished,
    {
        self.finished
    }

    /// Takes in one record; its function calls get fresh ids
    /// `call_<32 hex digits>`; returns the events it becomes.
    pub fn on_chunk(&mut self, chunk: &GeminiResponseJson) -> (r: Vec<StreamEvent>)
        requires
            old(self).wf(),
            !old(self)@.failed,
            !old(self)@.finished,
            stream_chunks(0, old(self)@.consumed, old(self)@.ids).0 + candidate_parts(*chunk).len()
                <= u32::MAX,
        ensures
            final(self).wf(),
            final(self)@.ids.len() == old(self)@.ids.len() + 1,
            final(self)@.ids.drop_last() == old(self)@.ids,
            final(self)@.ids.last().len() == call_count(candidate_parts(*chunk)),
            forall|i: int|
                0 <= i < final(self)@.ids.last().len() ==> is_call_id(
                    #[trigger] final(self)@.ids.last()[i],
                ),
            final(self)@ == (GStreamView {
                consumed: old(self)@.consumed.push(*chunk),
                ids: final(self)@.ids,
                emitted: old(self)@.emitted + as_outputs(crate::models::events_view(r@)),
                ..old(self)@
            }),
            crate::models::events_view(r@) == spec_stream_chunk(
                stream_chunks(0, old(self)@.consumed, old(self)@.ids).0,
                *chunk,
                final(self)@.ids.last(),
            ).1,
    {
        let ghost c0 = self.consumed@;
        let ghost h0 = self.ids@;
        let first = first_candidate_exec(chunk);
        let n = match first {
            Some(c) => match &c.parts {
                Some(p) => count_calls(p),
                None => 0,
            },
            None => 0,
        };
        let ids = new_call_ids(n);
        let r = self.state.on_chunk_with_ids(chunk, &ids);
        proof {
            let idv = ids@.map_values(|s: String| s@);
            assert forall|i: int| 0 <= i < idv.len() implies is_call_id(#[trigger] idv[i]) by {
                assert(idv[i] == ids@[i]@);
            }
            let c1 = c0.push(*chunk);
            let h1 = h0.push(idv);
            assert(c1.drop_last() =~= c0);
            assert(h1.drop_last() =~= h0);
            lemma_stream_chunks_ids(0, c0, h0, h1);
            self.consumed = Ghost(c1);
            self.ids = Ghost(h1);
            let e0 = stream_chunks(0, c0, h0).1;
            let e1 = stream_chunks(0, c1, h1).1;
            assert(as_outputs(e1) =~= as_outputs(e0) + as_outputs(crate::models::events_view(r@)));
            self.emitted = Ghost(stream_so_far(self@));
            assert(self.emitted@ =~= old(self)@.emitted + as_outputs(crate::models::events_view(r@)));
        }
        r
    }

    /// Records that reading the body failed; the caller hands out the error.
    pub fn read_failed(&mut self)
        requires
            old(self).wf(),
            !old(self)@.failed,
            !old(self)@.finished,
        ensures
            final(self).wf(),
            final(self)@ == (GStreamView {
                failed: true,
                emitted: old(self)@.emitted.push(OutputView::ReadError),
                ..old(self)@
            }),
    {
        self.failed = true;
        proof {
            let before = self.emitted@;
            self.emitted = Ghost(before.push(OutputView::ReadError));
            assert(self.emitted@ =~= stream_so_far(self@));
        }
    }

    /// Ends the stream with its stop event. All the stream then handed out
    /// is its events (opening, from the records, stop) with a read failure,
    /// if there was one, just before the stop.
    pub fn finish(&mut self) -> (r: StreamEvent)
        requires
            old(self).wf(),
            !old(self)@.finished,
        ensures
            final(self).wf(),
            final(self)@.finished,
            final(self)@.consumed == old(self)@.consumed,
            final(self)@.ids == old(self)@.ids,
            final(self)@.failed == old(self)@.failed,
            final(self)@.model == old(self)@.model,
            r@ == EventView::MessageStop,
            final(self)@.emitted == stream_outputs(
                spec_stream(old(self)@.model, old(self)@.consumed, old(self)@.ids),
                old(self)@.failed,
            ),
    {
        self.finished = true;
        let r = StreamEvent::MessageStop;
        proof {
            let before = self.emitted@;
            self.emitted = Ghost(before.push(OutputView::Event(EventView::MessageStop)));
            assert(self.emitted@ =~= stream_so_far(self@));
            let evs = spec_stream(self.model@, self.consumed@, self.ids@);
            assert(evs.drop_last() =~= seq![EventView::MessageStart(stream_start_view(self.model@))]
                + stream_chunks(0, self.consumed@, self.ids@).1);
            assert(as_outputs(evs.drop_last()) =~= seq![
                OutputView::Event(EventView::MessageStart(stream_start_view(self.model@))),
            ] + as_outputs(stream_chunks(0, self.consumed@, self.ids@).1));
            assert(self.emitted@ =~= stream_outputs(evs, self.failed));
        }
        r
    }
}

} // verus!
