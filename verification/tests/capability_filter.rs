use deepseek_tui::capability_filter::CapabilityFilter;
use deepseek_tui::models::{
    CacheControl, ContentBlock, Message, MessageRequest, ModelCapabilities, SystemBlock,
    SystemPrompt,
};

fn base_request() -> MessageRequest {
    MessageRequest {
        model: "deepseek-v4-pro".to_string(),
        messages: vec![Message {
            role: "user".to_string(),
            content: vec![ContentBlock::Text {
                text: "Hello".to_string(),
                cache_control: None,
            }],
        }],
        max_tokens: 4096,
        system: None,
        tools: None,
        tool_choice: None,
        metadata: None,
        thinking: None,
        reasoning_effort: None,
        stream: None,
        temperature: None,
        top_p: None,
    }
}

fn json_object(pairs: Vec<(&str, serde_json::Value)>) -> serde_json::Value {
    let mut m = serde_json::Map::new();
    for (k, v) in pairs {
        m.insert(k.to_string(), v);
    }
    serde_json::Value::Object(m)
}

#[test]
fn filter_removes_thinking_when_not_supported() {
    let mut req = base_request();
    req.thinking = Some(json_object(vec![
        ("type", serde_json::Value::from("enabled")),
        ("budget_tokens", serde_json::Value::from(10000)),
    ]));
    req.reasoning_effort = Some("high".to_string());

    let caps = ModelCapabilities {
        thinking_supported: Some(false),
        ..ModelCapabilities::default()
    };

    let filtered = CapabilityFilter::filter_request(req, &caps);
    assert!(filtered.thinking.is_none());
    assert!(filtered.reasoning_effort.is_none());
}

#[test]
fn filter_removes_tools_when_not_supported() {
    let mut req = base_request();
    req.tools = Some(vec![]);
    req.tool_choice = Some(serde_json::Value::from("auto"));

    let caps = ModelCapabilities {
        supports_tools: Some(false),
        ..ModelCapabilities::default()
    };

    let filtered = CapabilityFilter::filter_request(req, &caps);
    assert!(filtered.tools.is_none());
    assert!(filtered.tool_choice.is_none());
}

#[test]
fn filter_disables_streaming_when_not_supported() {
    let mut req = base_request();
    req.stream = Some(true);

    let caps = ModelCapabilities {
        supports_streaming: Some(false),
        ..ModelCapabilities::default()
    };

    let filtered = CapabilityFilter::filter_request(req, &caps);
    assert_eq!(filtered.stream, Some(false));
}

#[test]
fn filter_clears_cache_control_when_not_supported() {
    let mut req = base_request();
    req.system = Some(SystemPrompt::Blocks(vec![SystemBlock {
        block_type: "text".to_string(),
        text: "system prompt".to_string(),
        cache_control: Some(CacheControl {
            cache_type: "ephemeral".to_string(),
        }),
    }]));

    let caps = ModelCapabilities {
        cache_telemetry_supported: Some(false),
        ..ModelCapabilities::default()
    };

    let filtered = CapabilityFilter::filter_request(req, &caps);
    if let Some(SystemPrompt::Blocks(blocks)) = &filtered.system {
        assert!(blocks[0].cache_control.is_none());
    } else {
        panic!("expected SystemPrompt::Blocks");
    }
}

#[test]
fn filter_noop_when_all_capabilities_default() {
    let req = base_request();
    let caps = ModelCapabilities::default();
    let filtered = CapabilityFilter::filter_request(req.clone(), &caps);
    assert_eq!(filtered.model, req.model);
    assert_eq!(filtered.messages.len(), req.messages.len());
}

#[test]
fn filter_combined_disables() {
    let mut req = base_request();
    req.thinking = Some(json_object(vec![("type", serde_json::Value::from("enabled"))]));
    req.reasoning_effort = Some("max".to_string());
    req.tools = Some(vec![]);
    req.stream = Some(true);

    let caps = ModelCapabilities {
        thinking_supported: Some(false),
        supports_tools: Some(false),
        supports_streaming: Some(false),
        ..ModelCapabilities::default()
    };

    let filtered = CapabilityFilter::filter_request(req, &caps);
    assert!(filtered.thinking.is_none());
    assert!(filtered.reasoning_effort.is_none());
    assert!(filtered.tools.is_none());
    assert_eq!(filtered.stream, Some(false));
}

#[test]
fn filter_keeps_what_capabilities_allow() {
    let mut req = base_request();
    req.reasoning_effort = Some("high".to_string());
    req.stream = Some(true);
    let caps = ModelCapabilities {
        thinking_supported: Some(true),
        supports_streaming: Some(true),
        ..ModelCapabilities::default()
    };
    let filtered = CapabilityFilter::filter_request(req, &caps);
    assert_eq!(filtered.reasoning_effort, Some("high".to_string()));
    assert_eq!(filtered.stream, Some(true));
}

#[test]
fn filtering_twice_changes_nothing_more() {
    let mut req = base_request();
    req.reasoning_effort = Some("high".to_string());
    req.stream = Some(true);
    req.system = Some(SystemPrompt::Blocks(vec![SystemBlock {
        block_type: "text".to_string(),
        text: "s".to_string(),
        cache_control: Some(CacheControl {
            cache_type: "ephemeral".to_string(),
        }),
    }]));
    let caps = ModelCapabilities {
        thinking_supported: Some(false),
        supports_streaming: Some(false),
        cache_telemetry_supported: Some(false),
        ..ModelCapabilities::default()
    };
    let once = CapabilityFilter::filter_request(req, &caps);
    let twice = CapabilityFilter::filter_request(once.clone(), &caps);
    assert_eq!(format!("{:?}", once), format!("{:?}", twice));
}
