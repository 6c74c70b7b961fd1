use deepseek_tui::client::gemini::GeminiStream;
use deepseek_tui::client::fields::UsageJson;
use deepseek_tui::client::gemini::{
    convert_request, convert_response, convert_response_with_ids, GeminiCandidateJson,
    GeminiFunctionCallJson, GeminiPart, GeminiPartJson, GeminiResponseJson, GeminiStreamState,
};
use deepseek_tui::models::{
    ContentBlock, ContentBlockStart, Delta, Message, MessageRequest, StreamEvent, SystemPrompt,
    Tool,
};

fn base_request() -> MessageRequest {
    MessageRequest {
        model: "gemini-2.5-flash".to_string(),
        messages: vec![Message {
            role: "user".to_string(),
            content: vec![ContentBlock::Text {
                text: "Hello".to_string(),
                cache_control: None,
            }],
        }],
        max_tokens: 8192,
        system: None,
        tools: None,
        tool_choice: None,
        metadata: None,
        thinking: None,
        reasoning_effort: None,
        stream: None,
        temperature: None,
        top_p: None,
    }
}

fn object(pairs: Vec<(&str, serde_json::Value)>) -> serde_json::Value {
    let mut m = serde_json::Map::new();
    for (k, v) in pairs {
        m.insert(k.to_string(), v);
    }
    serde_json::Value::Object(m)
}

fn text_part(t: &str) -> GeminiPartJson {
    GeminiPartJson {
        text: Some(t.to_string()),
        function_call: None,
    }
}

fn call_part(name: Option<&str>, args: serde_json::Value) -> GeminiPartJson {
    GeminiPartJson {
        text: None,
        function_call: Some(GeminiFunctionCallJson {
            name: name.map(|s| s.to_string()),
            args,
        }),
    }
}

fn response(parts: Vec<GeminiPartJson>, finish: Option<&str>, usage: Option<(u64, u64)>) -> GeminiResponseJson {
    GeminiResponseJson {
        id: None,
        candidates: Some(vec![GeminiCandidateJson {
            parts: Some(parts),
            finish_reason: finish.map(|s| s.to_string()),
        }]),
        usage_metadata: usage.map(|(i, o)| UsageJson {
            input_tokens: Some(i),
            output_tokens: Some(o),
        }),
    }
}

#[test]
fn convert_request_maps_system_instruction() {
    let mut req = base_request();
    req.system = Some(SystemPrompt::Text("Be concise.".to_string()));
    let body = convert_request(&req);
    assert_eq!(body.system_instruction.as_deref(), Some("Be concise."));
}

#[test]
fn convert_request_maps_assistant_role_to_model() {
    let mut req = base_request();
    req.messages = vec![Message {
        role: "assistant".to_string(),
        content: vec![ContentBlock::Text {
            text: "Sure".to_string(),
            cache_control: None,
        }],
    }];
    let body = convert_request(&req);
    assert_eq!(body.contents[0].role, "model");
}

#[test]
fn convert_request_maps_tool_use_to_function_call() {
    let mut req = base_request();
    req.messages = vec![Message {
        role: "assistant".to_string(),
        content: vec![ContentBlock::ToolUse {
            id: "call_1".to_string(),
            name: "search".to_string(),
            input: object(vec![("q", serde_json::Value::from("test"))]),
            caller: None,
        }],
    }];
    let body = convert_request(&req);
    match &body.contents[0].parts[0] {
        GeminiPart::FunctionCall { name, args } => {
            assert_eq!(name, "search");
            assert_eq!(args["q"], "test");
        }
        other => panic!("expected function call, got {:?}", other),
    }
}

#[test]
fn convert_request_includes_generation_config() {
    let mut req = base_request();
    req.temperature = Some(0.5f32.to_bits());
    req.top_p = Some(0.8f32.to_bits());
    let body = convert_request(&req);
    let cfg = body.generation_config.unwrap();
    let temp = f32::from_bits(cfg.temperature.unwrap()) as f64;
    let top_p = f32::from_bits(cfg.top_p.unwrap()) as f64;
    assert!((temp - 0.5).abs() < 0.01);
    assert!((top_p - 0.8).abs() < 0.01);
    assert_eq!(cfg.max_output_tokens, Some(8192));
}

#[test]
fn convert_request_wraps_tools_in_function_declarations() {
    let mut req = base_request();
    req.tools = Some(vec![Tool {
        tool_type: None,
        name: "calc".to_string(),
        description: "Calculate".to_string(),
        input_schema: object(vec![("type", serde_json::Value::from("object"))]),
        allowed_callers: None,
        defer_loading: None,
        input_examples: None,
        strict: None,
        cache_control: None,
    }]);
    let body = convert_request(&req);
    let decls = body.tools.unwrap();
    assert_eq!(decls.len(), 1);
    assert_eq!(decls[0].name, "calc");
}

#[test]
fn convert_request_drops_messages_without_parts_and_config_when_unset() {
    let mut req = base_request();
    req.max_tokens = 0;
    req.messages.push(Message {
        role: "assistant".to_string(),
        content: vec![ContentBlock::Thinking {
            thinking: "hidden".to_string(),
        }],
    });
    req.messages.push(Message {
        role: "user".to_string(),
        content: vec![ContentBlock::ToolResult {
            tool_use_id: "calc".to_string(),
            content: "4".to_string(),
            is_error: None,
        }],
    });
    let body = convert_request(&req);
    assert!(body.generation_config.is_none());
    assert_eq!(body.contents.len(), 2);
    match &body.contents[1].parts[0] {
        GeminiPart::FunctionResponse { name, result } => {
            assert_eq!(name, "calc");
            assert_eq!(result, "4");
        }
        other => panic!("expected function response, got {:?}", other),
    }
}

#[test]
fn convert_response_parses_candidates_text() {
    let mut json = response(vec![text_part("Hello!")], Some("STOP"), Some((5, 3)));
    json.id = Some("resp_1".to_string());
    let resp = convert_response(&json, "gemini-2.5-flash");
    assert_eq!(resp.model, "gemini-2.5-flash");
    assert_eq!(resp.id, "resp_1");
    assert_eq!(resp.content.len(), 1);
    assert_eq!(resp.stop_reason, Some("STOP".to_string()));
    assert_eq!(resp.usage.input_tokens, 5);
    assert_eq!(resp.usage.output_tokens, 3);
    if let ContentBlock::Text { text, .. } = &resp.content[0] {
        assert_eq!(text, "Hello!");
    } else {
        panic!("expected Text block");
    }
}

#[test]
fn convert_response_parses_function_call() {
    let json = response(
        vec![call_part(
            Some("calc"),
            object(vec![("expr", serde_json::Value::from("2+2"))]),
        )],
        None,
        Some((10, 8)),
    );
    let resp = convert_response(&json, "gemini-2.5-flash");
    assert_eq!(resp.content.len(), 1);
    if let ContentBlock::ToolUse { id, name, input, .. } = &resp.content[0] {
        assert_eq!(name, "calc");
        assert_eq!(input["expr"], "2+2");
        assert!(id.starts_with("call_"));
        assert_eq!(id.len(), 37);
        assert!(id[5..].chars().all(|c| c.is_ascii_hexdigit() && !c.is_ascii_uppercase()));
    } else {
        panic!("expected ToolUse block");
    }
}

#[test]
fn convert_response_handles_empty_candidates() {
    let json = GeminiResponseJson {
        id: None,
        candidates: Some(vec![]),
        usage_metadata: Some(UsageJson {
            input_tokens: Some(0),
            output_tokens: Some(0),
        }),
    };
    let resp = convert_response(&json, "gemini-2.5-flash");
    assert!(resp.content.is_empty());
    assert_eq!(resp.usage.input_tokens, 0);
    assert_eq!(resp.role, "assistant");
}

#[test]
fn convert_response_with_ids_assigns_ids_in_order() {
    let json = response(
        vec![
            call_part(None, serde_json::Value::Null),
            text_part("t"),
            call_part(Some("b"), serde_json::Value::Null),
        ],
        None,
        None,
    );
    let ids = vec!["first".to_string(), "second".to_string()];
    let resp = convert_response_with_ids(&json, "m", &ids);
    assert_eq!(resp.content.len(), 2);
    match &resp.content[1] {
        ContentBlock::ToolUse { id, name, .. } => {
            assert_eq!(id, "second");
            assert_eq!(name, "b");
        }
        other => panic!("unexpected {:?}", other),
    }
    assert_eq!(resp.usage.input_tokens, 0);
}

#[test]
fn stream_chunk_emits_whole_blocks_and_usage() {
    let mut state = GeminiStreamState::new();
    let json = response(
        vec![text_part("Hi"), call_part(None, serde_json::Value::Null)],
        Some("STOP"),
        Some((2, 1)),
    );
    let ids = vec!["id-1".to_string()];
    let evs = state.on_chunk_with_ids(&json, &ids);
    assert_eq!(evs.len(), 6);
    assert!(matches!(&evs[0], StreamEvent::ContentBlockStart { index: 0, content_block: ContentBlockStart::Text { text } } if text.is_empty()));
    assert!(matches!(&evs[1], StreamEvent::ContentBlockDelta { index: 0, delta: Delta::TextDelta { text } } if text == "Hi"));
    assert!(matches!(&evs[2], StreamEvent::ContentBlockStop { index: 0 }));
    assert!(matches!(&evs[3], StreamEvent::ContentBlockStart { index: 1, content_block: ContentBlockStart::ToolUse { id, name, .. } } if id == "id-1" && name.is_empty()));
    assert!(matches!(&evs[4], StreamEvent::ContentBlockStop { index: 1 }));
    match &evs[5] {
        StreamEvent::MessageDelta { delta, usage } => {
            assert_eq!(delta.stop_reason, Some("STOP".to_string()));
            assert_eq!(usage.unwrap().input_tokens, 2);
        }
        other => panic!("unexpected {:?}", other),
    }
    let evs = state.on_chunk(&response(vec![text_part("x")], None, None));
    assert_eq!(evs.len(), 3);
    assert!(matches!(&evs[0], StreamEvent::ContentBlockStart { index: 2, .. }));
}

#[test]
fn stream_driver_numbers_blocks_across_records() {
    let (mut s, first) = GeminiStream::start("gemini-2.5-flash");
    assert!(matches!(first, StreamEvent::MessageStart { .. }));
    let a = s.on_chunk(&response(vec![text_part("a")], None, None));
    assert!(matches!(&a[0], StreamEvent::ContentBlockStart { index: 0, .. }));
    let b = s.on_chunk(&response(
        vec![call_part(Some("f"), serde_json::Value::Null)],
        Some("STOP"),
        Some((1, 1)),
    ));
    match &b[0] {
        StreamEvent::ContentBlockStart {
            index: 1,
            content_block: ContentBlockStart::ToolUse { id, name, .. },
        } => {
            assert!(id.starts_with("call_"));
            assert_eq!(id.len(), 37);
            assert_eq!(name, "f");
        }
        other => panic!("unexpected {:?}", other),
    }
    assert_eq!(b.len(), 3);
    assert!(matches!(s.finish(), StreamEvent::MessageStop));
}
