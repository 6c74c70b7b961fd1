use deepseek_tui::client::anthropic::AnthropicStream;
use deepseek_tui::client::anthropic::{
    convert_request, convert_response, AnthropicBlockJson, AnthropicContent, AnthropicDeltaJson,
    AnthropicEventJson, AnthropicResponseJson, AnthropicStreamState,
};
use deepseek_tui::client::fields::UsageJson;
use deepseek_tui::models::{
    ContentBlock, ContentBlockStart, Delta, Message, MessageRequest, StreamEvent, SystemBlock,
    SystemPrompt, Tool,
};

fn base_request() -> MessageRequest {
    MessageRequest {
        model: "sonnet-4-20250514".to_string(),
        messages: vec![Message {
            role: "user".to_string(),
            content: vec![ContentBlock::Text {
                text: "Hello".to_string(),
                cache_control: None,
            }],
        }],
        max_tokens: 4096,
        system: None,
        tools: None,
        tool_choice: None,
        metadata: None,
        thinking: None,
        reasoning_effort: None,
        stream: None,
        temperature: None,
        top_p: None,
    }
}

fn object(pairs: Vec<(&str, serde_json::Value)>) -> serde_json::Value {
    let mut m = serde_json::Map::new();
    for (k, v) in pairs {
        m.insert(k.to_string(), v);
    }
    serde_json::Value::Object(m)
}

fn block(ty: &str) -> AnthropicBlockJson {
    AnthropicBlockJson {
        block_type: Some(ty.to_string()),
        text: None,
        thinking: None,
        id: None,
        name: None,
        input: serde_json::Value::Null,
    }
}

fn response(content: Vec<AnthropicBlockJson>, usage: Option<UsageJson>) -> AnthropicResponseJson {
    AnthropicResponseJson {
        id: Some("msg_123".to_string()),
        role: Some("assistant".to_string()),
        model: Some("sonnet-4-20250514".to_string()),
        content: Some(content),
        usage,
        stop_reason: None,
        stop_sequence: None,
    }
}

#[test]
fn convert_request_includes_model_and_max_tokens() {
    let req = base_request();
    let body = convert_request(&req);
    assert_eq!(body.model, "sonnet-4-20250514");
    assert_eq!(body.max_tokens, 4096);
    assert!(body.stream.is_none());
}

#[test]
fn convert_request_maps_text_content_blocks() {
    let req = base_request();
    let body = convert_request(&req);
    assert_eq!(body.messages.len(), 1);
    assert_eq!(body.messages[0].role, "user");
    match &body.messages[0].content[0] {
        AnthropicContent::Text { text } => assert_eq!(text, "Hello"),
        other => panic!("expected text, got {:?}", other),
    }
}

#[test]
fn convert_request_maps_system_prompt_text() {
    let mut req = base_request();
    req.system = Some(SystemPrompt::Text("You are helpful.".to_string()));
    let body = convert_request(&req);
    assert_eq!(body.system.as_deref(), Some("You are helpful."));
}

#[test]
fn convert_request_joins_system_blocks_with_newlines() {
    let mut req = base_request();
    let b = |t: &str| SystemBlock {
        block_type: "text".to_string(),
        text: t.to_string(),
        cache_control: None,
    };
    req.system = Some(SystemPrompt::Blocks(vec![b("one"), b("two"), b("three")]));
    let body = convert_request(&req);
    assert_eq!(body.system.as_deref(), Some("one\ntwo\nthree"));
}

#[test]
fn convert_request_maps_thinking_block() {
    let mut req = base_request();
    req.messages = vec![Message {
        role: "assistant".to_string(),
        content: vec![ContentBlock::Thinking {
            thinking: "Let me think...".to_string(),
        }],
    }];
    let body = convert_request(&req);
    match &body.messages[0].content[0] {
        AnthropicContent::Thinking { thinking } => assert_eq!(thinking, "Let me think..."),
        other => panic!("expected thinking, got {:?}", other),
    }
}

#[test]
fn convert_request_includes_tools() {
    let mut req = base_request();
    req.tools = Some(vec![Tool {
        tool_type: None,
        name: "get_weather".to_string(),
        description: "Get weather".to_string(),
        input_schema: object(vec![("type", serde_json::Value::from("object"))]),
        allowed_callers: None,
        defer_loading: None,
        input_examples: None,
        strict: None,
        cache_control: None,
    }]);
    let body = convert_request(&req);
    let tools = body.tools.unwrap();
    assert_eq!(tools.len(), 1);
    assert_eq!(tools[0].name, "get_weather");
    assert_eq!(tools[0].input_schema["type"], "object");
}

#[test]
fn convert_request_includes_temperature_and_top_p() {
    let mut req = base_request();
    req.temperature = Some(0.7f32.to_bits());
    req.top_p = Some(0.9f32.to_bits());
    let body = convert_request(&req);
    let temp = f32::from_bits(body.temperature.unwrap()) as f64;
    let top_p = f32::from_bits(body.top_p.unwrap()) as f64;
    assert!((temp - 0.7).abs() < 0.01);
    assert!((top_p - 0.9).abs() < 0.01);
}

#[test]
fn convert_request_tool_result_defaults_to_not_error() {
    let mut req = base_request();
    req.messages[0].content.push(ContentBlock::ToolResult {
        tool_use_id: "tu_1".to_string(),
        content: "42".to_string(),
        is_error: None,
    });
    let body = convert_request(&req).streaming();
    assert_eq!(body.stream, Some(true));
    match &body.messages[0].content[1] {
        AnthropicContent::ToolResult {
            tool_use_id,
            content,
            is_error,
        } => {
            assert_eq!(tool_use_id, "tu_1");
            assert_eq!(content, "42");
            assert!(!is_error);
        }
        other => panic!("expected tool result, got {:?}", other),
    }
}

#[test]
fn convert_response_parses_text_content() {
    let mut b = block("text");
    b.text = Some("Hi there!".to_string());
    let mut json = response(
        vec![b],
        Some(UsageJson {
            input_tokens: Some(10),
            output_tokens: Some(5),
        }),
    );
    json.stop_reason = Some("end_turn".to_string());
    let resp = convert_response(&json);
    assert_eq!(resp.id, "msg_123");
    assert_eq!(resp.model, "sonnet-4-20250514");
    assert_eq!(resp.content.len(), 1);
    assert_eq!(resp.stop_reason, Some("end_turn".to_string()));
    assert_eq!(resp.usage.input_tokens, 10);
    assert_eq!(resp.usage.output_tokens, 5);
    if let ContentBlock::Text { text, .. } = &resp.content[0] {
        assert_eq!(text, "Hi there!");
    } else {
        panic!("expected Text block");
    }
}

#[test]
fn convert_response_parses_thinking_and_tool_use() {
    let mut t = block("thinking");
    t.thinking = Some("reasoning...".to_string());
    let mut u = block("tool_use");
    u.id = Some("tu_1".to_string());
    u.name = Some("search".to_string());
    u.input = object(vec![("q", serde_json::Value::from("test"))]);
    let mut json = response(
        vec![t, u],
        Some(UsageJson {
            input_tokens: Some(20),
            output_tokens: Some(10),
        }),
    );
    json.stop_reason = Some("tool_use".to_string());
    let resp = convert_response(&json);
    assert_eq!(resp.content.len(), 2);
    if let ContentBlock::Thinking { thinking } = &resp.content[0] {
        assert_eq!(thinking, "reasoning...");
    } else {
        panic!("expected Thinking block");
    }
    if let ContentBlock::ToolUse { name, input, .. } = &resp.content[1] {
        assert_eq!(name, "search");
        assert_eq!(input["q"], "test");
    } else {
        panic!("expected ToolUse block");
    }
}

#[test]
fn convert_response_handles_empty_content() {
    let json = response(
        vec![],
        Some(UsageJson {
            input_tokens: Some(0),
            output_tokens: Some(0),
        }),
    );
    let resp = convert_response(&json);
    assert!(resp.content.is_empty());
    assert_eq!(resp.usage.input_tokens, 0);
}

#[test]
fn convert_response_defaults_and_drops_unknown_blocks() {
    let mut incomplete = block("tool_use");
    incomplete.name = Some("no-id".to_string());
    let json = AnthropicResponseJson {
        id: None,
        role: None,
        model: None,
        content: Some(vec![block("image"), incomplete, block("text")]),
        usage: Some(UsageJson {
            input_tokens: Some(4_294_967_296 + 7),
            output_tokens: None,
        }),
        stop_reason: None,
        stop_sequence: Some("END".to_string()),
    };
    let resp = convert_response(&json);
    assert_eq!(resp.id, "");
    assert_eq!(resp.role, "assistant");
    assert_eq!(resp.message_type, "message");
    assert!(resp.content.is_empty());
    assert_eq!(resp.usage.input_tokens, 7);
    assert_eq!(resp.usage.output_tokens, 0);
    assert_eq!(resp.stop_sequence, Some("END".to_string()));
}

fn event(ty: &str) -> AnthropicEventJson {
    AnthropicEventJson {
        event_type: Some(ty.to_string()),
        content_block: None,
        delta: None,
        index: None,
        usage: None,
    }
}

#[test]
fn stream_events_number_started_blocks() {
    let mut state = AnthropicStreamState::new();
    let mut start = event("content_block_start");
    let mut b = block("text");
    b.text = Some("a".to_string());
    start.content_block = Some(b);
    let evs = state.on_event(&start);
    assert!(matches!(
        &evs[..],
        [StreamEvent::ContentBlockStart { index: 0, content_block: ContentBlockStart::Text { text } }] if text == "a"
    ));
    let mut start2 = event("content_block_start");
    start2.content_block = Some(block("tool_use"));
    let evs = state.on_event(&start2);
    assert!(matches!(
        &evs[..],
        [StreamEvent::ContentBlockStart { index: 1, content_block: ContentBlockStart::ToolUse { id, name, .. } }] if id.is_empty() && name.is_empty()
    ));
    let mut unknown = event("content_block_start");
    unknown.content_block = Some(block("image"));
    assert!(state.on_event(&unknown).is_empty());
}

#[test]
fn stream_deltas_stops_and_message_events() {
    let mut state = AnthropicStreamState::new();
    let mut delta = event("content_block_delta");
    delta.index = Some(3);
    delta.delta = Some(AnthropicDeltaJson {
        delta_type: Some("input_json_delta".to_string()),
        text: None,
        thinking: None,
        partial_json: Some("{\"q\":".to_string()),
        stop_reason: None,
    });
    let evs = state.on_event(&delta);
    assert!(matches!(
        &evs[..],
        [StreamEvent::ContentBlockDelta { index: 3, delta: Delta::InputJsonDelta { partial_json } }] if partial_json == "{\"q\":"
    ));
    let evs = state.on_event(&event("content_block_stop"));
    assert!(matches!(&evs[..], [StreamEvent::ContentBlockStop { index: 0 }]));
    let mut md = event("message_delta");
    md.delta = Some(AnthropicDeltaJson {
        delta_type: None,
        text: None,
        thinking: None,
        partial_json: None,
        stop_reason: Some("end_turn".to_string()),
    });
    md.usage = Some(UsageJson {
        input_tokens: None,
        output_tokens: Some(9),
    });
    let evs = state.on_event(&md);
    match &evs[..] {
        [StreamEvent::MessageDelta { delta, usage }] => {
            assert_eq!(delta.stop_reason, Some("end_turn".to_string()));
            assert_eq!(usage.unwrap().output_tokens, 9);
            assert_eq!(usage.unwrap().input_tokens, 0);
        }
        other => panic!("unexpected {:?}", other),
    }
    assert!(matches!(&state.on_event(&event("message_stop"))[..], [StreamEvent::MessageStop]));
    assert!(state.on_event(&event("ping")).is_empty());
}

#[test]
fn stream_driver_opens_numbers_and_closes() {
    let (mut s, first) = AnthropicStream::start("m");
    match first {
        StreamEvent::MessageStart { message } => {
            assert_eq!(message.model, "m");
            assert_eq!(message.role, "assistant");
            assert!(message.content.is_empty());
        }
        other => panic!("unexpected {:?}", other),
    }
    let mut start = event("content_block_start");
    start.content_block = Some(block("text"));
    assert!(matches!(&s.on_event(&start)[..], [StreamEvent::ContentBlockStart { index: 0, .. }]));
    assert!(matches!(&s.on_event(&start)[..], [StreamEvent::ContentBlockStart { index: 1, .. }]));
    assert_eq!(s.next_index(), 2);
    s.read_failed();
    assert!(s.has_failed());
    assert!(matches!(s.finish(), StreamEvent::MessageStop));
    assert!(s.is_finished());
}
