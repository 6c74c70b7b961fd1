use deepseek_tui::capability_bridge::{has_deepseek_r_series_marker, lookup_model_pattern, CapabilityBridge};
use deepseek_tui::capability_bridge as bridge;
use deepseek_tui::config::{ApiProvider, ProtocolType, RequestPayloadMode};
use deepseek_tui::models::{
    ModelCapabilities, DEEPSEEK_V4_CONTEXT_WINDOW_TOKENS, LEGACY_DEEPSEEK_CONTEXT_WINDOW_TOKENS,
};

#[test]
fn provider_to_protocol_maps_all_builtins_to_openai_compatible() {
    for provider in [
        ApiProvider::Deepseek,
        ApiProvider::DeepseekCN,
        ApiProvider::NvidiaNim,
        ApiProvider::Openai,
        ApiProvider::Openrouter,
        ApiProvider::Novita,
        ApiProvider::Fireworks,
        ApiProvider::Sglang,
        ApiProvider::Vllm,
        ApiProvider::Ollama,
    ] {
        assert_eq!(
            CapabilityBridge::provider_to_protocol(provider),
            ProtocolType::OpenaiCompatible
        );
    }
}

#[test]
fn builtin_model_capabilities_deepseek_v4_pro() {
    let caps =
        CapabilityBridge::builtin_model_capabilities(ApiProvider::Deepseek, "deepseek-v4-pro");
    assert_eq!(caps.thinking_supported, Some(true));
    assert_eq!(caps.supports_reasoning, Some(true));
    assert_eq!(caps.context_window, Some(DEEPSEEK_V4_CONTEXT_WINDOW_TOKENS));
    assert_eq!(caps.max_output, Some(384_000));
    assert_eq!(caps.cache_telemetry_supported, Some(true));
}

#[test]
fn builtin_model_capabilities_deepseek_v4_flash() {
    let caps =
        CapabilityBridge::builtin_model_capabilities(ApiProvider::Deepseek, "deepseek-v4-flash");
    assert_eq!(caps.thinking_supported, Some(true));
    assert_eq!(caps.context_window, Some(DEEPSEEK_V4_CONTEXT_WINDOW_TOKENS));
    assert_eq!(caps.max_output, Some(384_000));
}

#[test]
fn builtin_model_capabilities_ollama() {
    let caps = CapabilityBridge::builtin_model_capabilities(ApiProvider::Ollama, "llama3");
    assert_eq!(caps.context_window, Some(8_192));
    assert_eq!(caps.thinking_supported, Some(false));
    assert_eq!(caps.cache_telemetry_supported, Some(false));
}

#[test]
fn builtin_model_capabilities_openai() {
    let caps = CapabilityBridge::builtin_model_capabilities(ApiProvider::Openai, "gpt-4o");
    assert_eq!(caps.context_window, Some(LEGACY_DEEPSEEK_CONTEXT_WINDOW_TOKENS));
    assert_eq!(caps.thinking_supported, Some(false));
}

#[test]
fn infer_supports_reasoning_from_model_id() {
    assert!(bridge::infer_supports_reasoning_from_model_id("deepseek-v4-pro"));
    assert!(bridge::infer_supports_reasoning_from_model_id("deepseek-v4-flash"));
    assert!(bridge::infer_supports_reasoning_from_model_id("deepseek-reasoner"));
    assert!(bridge::infer_supports_reasoning_from_model_id("qwen-reasoning"));
    assert!(bridge::infer_supports_reasoning_from_model_id("qwq-thinking"));
    assert!(bridge::infer_supports_reasoning_from_model_id("deepseek-r1"));
    assert!(!bridge::infer_supports_reasoning_from_model_id("gpt-4o"));
    assert!(!bridge::infer_supports_reasoning_from_model_id("anthropic-3-opus"));
}

#[test]
fn requires_reasoning_from_caps() {
    let caps_with_thinking = ModelCapabilities {
        thinking_supported: Some(true),
        ..ModelCapabilities::default()
    };
    assert!(CapabilityBridge::requires_reasoning(&caps_with_thinking));

    let caps_with_reasoning = ModelCapabilities {
        supports_reasoning: Some(true),
        ..ModelCapabilities::default()
    };
    assert!(CapabilityBridge::requires_reasoning(&caps_with_reasoning));

    let caps_none = ModelCapabilities::default();
    assert!(!CapabilityBridge::requires_reasoning(&caps_none));
}

#[test]
fn should_replay_reasoning_respects_effort_off() {
    let caps = ModelCapabilities {
        thinking_supported: Some(true),
        ..ModelCapabilities::default()
    };
    assert!(!CapabilityBridge::should_replay_reasoning(&caps, Some("off")));
    assert!(!CapabilityBridge::should_replay_reasoning(&caps, Some("disabled")));
    assert!(CapabilityBridge::should_replay_reasoning(&caps, Some("high")));
    assert!(CapabilityBridge::should_replay_reasoning(&caps, None));
}

#[test]
fn resolve_capabilities_three_tier_merge() {
    let protocol_defaults = CapabilityBridge::protocol_defaults(ProtocolType::OpenaiCompatible);
    let user_caps = ModelCapabilities {
        context_window: Some(50_000),
        ..ModelCapabilities::default()
    };
    let resolved = CapabilityBridge::resolve_capabilities(
        Some(&user_caps),
        None,
        ProtocolType::OpenaiCompatible,
    );
    assert_eq!(resolved.context_window, Some(50_000));
    assert_eq!(resolved.supports_tools, protocol_defaults.supports_tools);
    assert_eq!(resolved.supports_streaming, protocol_defaults.supports_streaming);
}

#[test]
fn lookup_model_pattern_matches_known_models() {
    assert!(lookup_model_pattern("deepseek-v4-pro").is_some());
    assert!(lookup_model_pattern("deepseek-v4-flash").is_some());
    assert!(lookup_model_pattern("deepseek-reasoner").is_some());
    assert!(lookup_model_pattern("deepseek-chat").is_some());
}

#[test]
fn lookup_model_pattern_returns_none_for_unknown() {
    assert!(lookup_model_pattern("gpt-4o").is_none());
    assert!(lookup_model_pattern("anthropic-3-opus").is_none());
    assert!(lookup_model_pattern("llama3").is_none());
}

#[test]
fn lookup_model_pattern_v4_pro_caps() {
    let caps = lookup_model_pattern("deepseek-v4-pro").unwrap();
    assert_eq!(caps.thinking_supported, Some(true));
    assert_eq!(caps.supports_reasoning, Some(true));
    assert_eq!(caps.max_output, Some(384_000));
}

#[test]
fn lookup_model_pattern_v4_flash_caps() {
    let caps = lookup_model_pattern("deepseek-v4-flash").unwrap();
    assert_eq!(caps.thinking_supported, Some(true));
    assert_eq!(caps.supports_reasoning, Some(false));
}

#[test]
fn r_series_marker_needs_a_digit_after_r() {
    assert!(has_deepseek_r_series_marker("deepseek-r1"));
    assert!(has_deepseek_r_series_marker("deepseek-r2-lite"));
    assert!(!has_deepseek_r_series_marker("deepseek-reasoner"));
    assert!(!has_deepseek_r_series_marker("gpt-4o"));
}

#[test]
fn request_payload_mode_follows_protocol() {
    assert_eq!(
        CapabilityBridge::request_payload_mode(ProtocolType::OpenaiCompatible),
        RequestPayloadMode::ChatCompletions
    );
    assert_eq!(
        CapabilityBridge::request_payload_mode(ProtocolType::AnthropicMessages),
        RequestPayloadMode::AnthropicMessages
    );
    assert_eq!(
        CapabilityBridge::request_payload_mode(ProtocolType::GoogleGemini),
        RequestPayloadMode::GoogleGemini
    );
}

#[test]
fn to_provider_capability_fills_unstated_values() {
    let caps = ModelCapabilities {
        context_window: Some(64_000),
        thinking_supported: Some(true),
        ..ModelCapabilities::default()
    };
    let pc = CapabilityBridge::to_provider_capability(
        ApiProvider::Openai,
        "gpt-4o",
        &caps,
        ProtocolType::GoogleGemini,
        None,
    );
    assert_eq!(pc.context_window, 64_000);
    assert_eq!(pc.max_output, 4_096);
    assert!(pc.thinking_supported);
    assert!(!pc.cache_telemetry_supported);
    assert_eq!(pc.request_payload_mode, RequestPayloadMode::GoogleGemini);
    assert_eq!(pc.resolved_model, "gpt-4o");
    let empty = CapabilityBridge::to_provider_capability(
        ApiProvider::Deepseek,
        "deepseek-v4-pro",
        &ModelCapabilities::default(),
        ProtocolType::OpenaiCompatible,
        None,
    );
    assert_eq!(empty.context_window, 128_000);
}

#[test]
fn resolve_capabilities_prefers_user_then_builtin() {
    let user = ModelCapabilities {
        max_output: Some(1),
        ..ModelCapabilities::default()
    };
    let builtin = ModelCapabilities {
        max_output: Some(2),
        context_window: Some(3),
        ..ModelCapabilities::default()
    };
    let r = CapabilityBridge::resolve_capabilities(
        Some(&user),
        Some(&builtin),
        ProtocolType::AnthropicMessages,
    );
    assert_eq!(r.max_output, Some(1));
    assert_eq!(r.context_window, Some(3));
    assert_eq!(r.supports_vision, Some(true));
    let none = CapabilityBridge::resolve_capabilities(None, None, ProtocolType::GoogleGemini);
    assert_eq!(none.context_window, Some(1_000_000));
}
