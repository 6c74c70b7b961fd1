use std::collections::HashMap;

use deepseek_tui::config::{ProtocolType, ProvidersConfig};
use deepseek_tui::provider_registry::{
    ProviderEntry, ProviderRegistry, ProviderTomlConfig, ProvidersToml, RegistryErrorKind,
    UnregisterOutcome,
};

#[test]
fn new_registry_has_all_builtins() {
    let registry = ProviderRegistry::new();
    let all = registry.all_providers();
    assert!(all.len() >= 10);
    let names: Vec<&str> = all.iter().map(|p| p.name.as_str()).collect();
    assert!(names.contains(&"deepseek"));
    assert!(names.contains(&"ollama"));
}

#[test]
fn load_custom_provider_openai_compatible() {
    let mut registry = ProviderRegistry::new();
    let mut custom = ProvidersToml::default();
    custom.entries.push((
        "my-llm".to_string(),
        ProviderTomlConfig {
            protocol: Some("openai_compatible".to_string()),
            base_url: Some("https://api.my-llm.com/v1".to_string()),
            api_key: Some("sk-test".to_string()),
            model: Some("my-model".to_string()),
            ..ProviderTomlConfig::default()
        },
    ));
    registry.load_from_custom_providers(&custom).unwrap();

    let resolved = registry.get("my-llm").unwrap();
    assert_eq!(resolved.name, "my-llm");
    assert_eq!(resolved.protocol, ProtocolType::OpenaiCompatible);
    assert_eq!(resolved.base_url, "https://api.my-llm.com/v1");
    assert!(!resolved.is_builtin);
}

#[test]
fn load_custom_provider_anthropiic() {
    let mut registry = ProviderRegistry::new();
    let mut custom = ProvidersToml::default();
    custom.entries.push((
        "anthropic-proxy".to_string(),
        ProviderTomlConfig {
            protocol: Some("anthropic_messages".to_string()),
            base_url: Some("https://api.anthropic.com".to_string()),
            api_key: Some("sk-ant-test".to_string()),
            ..ProviderTomlConfig::default()
        },
    ));
    registry.load_from_custom_providers(&custom).unwrap();

    let resolved = registry.get("anthropic-proxy").unwrap();
    assert_eq!(resolved.protocol, ProtocolType::AnthropicMessages);
}

#[test]
fn load_custom_provider_gemini() {
    let mut registry = ProviderRegistry::new();
    let mut custom = ProvidersToml::default();
    custom.entries.push((
        "gemini-proxy".to_string(),
        ProviderTomlConfig {
            protocol: Some("google_gemini".to_string()),
            base_url: Some("https://generativelanguage.googleapis.com".to_string()),
            ..ProviderTomlConfig::default()
        },
    ));
    registry.load_from_custom_providers(&custom).unwrap();

    let resolved = registry.get("gemini-proxy").unwrap();
    assert_eq!(resolved.protocol, ProtocolType::GoogleGemini);
}

#[test]
fn load_custom_provider_missing_base_url_fails() {
    let mut registry = ProviderRegistry::new();
    let mut custom = ProvidersToml::default();
    custom.entries.push((
        "bad-provider".to_string(),
        ProviderTomlConfig {
            protocol: Some("openai_compatible".to_string()),
            base_url: None,
            ..ProviderTomlConfig::default()
        },
    ));
    assert!(registry.load_from_custom_providers(&custom).is_err());
}

#[test]
fn load_custom_provider_overrides_builtin() {
    let mut registry = ProviderRegistry::new();
    let mut custom = ProvidersToml::default();
    custom.entries.push((
        "ollama".to_string(),
        ProviderTomlConfig {
            base_url: Some("http://custom-ollama:11434/v1".to_string()),
            ..ProviderTomlConfig::default()
        },
    ));
    registry.load_from_custom_providers(&custom).unwrap();

    let resolved = registry.get("ollama").unwrap();
    assert_eq!(resolved.base_url, "http://custom-ollama:11434/v1");
    assert!(resolved.is_builtin);
}

#[test]
fn load_from_providers_config_applies_overrides() {
    let mut registry = ProviderRegistry::new();
    let mut providers = ProvidersConfig::default();
    providers.openai.api_key = Some("sk-openai-test".to_string());
    providers.openai.base_url = Some("https://custom-openai/v1".to_string());
    registry.load_from_providers_config(&providers).unwrap();

    let resolved = registry.get("openai").unwrap();
    assert_eq!(resolved.api_key, Some("sk-openai-test".to_string()));
    assert_eq!(resolved.base_url, "https://custom-openai/v1");
}

fn custom_entry(name: &str, base_url: Option<&str>) -> ProviderEntry {
    ProviderEntry {
        name: name.to_string(),
        display_name: None,
        protocol: Some(ProtocolType::OpenaiCompatible),
        base_url: base_url.map(|s| s.to_string()),
        api_key: None,
        default_model: None,
        http_headers: None,
        capabilities: None,
        is_builtin: false,
    }
}

#[test]
fn register_then_get_returns_the_entry() {
    let mut registry = ProviderRegistry::new();
    registry
        .register(custom_entry("my-llm", Some("https://x.example/v1")))
        .unwrap();
    let p = registry.get("my-llm").unwrap();
    assert_eq!(p.base_url, "https://x.example/v1");
    assert_eq!(p.display_name, "my-llm");
    assert!(!p.is_builtin);
}

#[test]
fn register_rejects_duplicates_and_bad_names() {
    let mut registry = ProviderRegistry::new();
    let err = registry
        .register(custom_entry("deepseek", Some("https://x")))
        .unwrap_err();
    assert_eq!(err.kind, RegistryErrorKind::AlreadyExists);
    let err = registry
        .register(custom_entry("Bad Name", Some("https://x")))
        .unwrap_err();
    assert_eq!(err.kind, RegistryErrorKind::InvalidName);
    let err = registry.register(custom_entry("no-url", None)).unwrap_err();
    assert_eq!(err.kind, RegistryErrorKind::MissingBaseUrl);
    assert!(registry.get("no-url").is_none());
}

#[test]
fn unregister_removes_custom_and_keeps_builtins() {
    let mut registry = ProviderRegistry::new();
    registry
        .register(custom_entry("my-llm", Some("https://x")))
        .unwrap();
    assert_eq!(registry.unregister("my-llm").unwrap(), UnregisterOutcome::Removed);
    assert!(registry.get("my-llm").is_none());
    assert_eq!(
        registry.unregister("deepseek").unwrap(),
        UnregisterOutcome::CannotRemoveBuiltin
    );
    assert!(registry.get("deepseek").is_some());
    assert_eq!(
        registry.unregister("nope").unwrap_err().kind,
        RegistryErrorKind::NotFound
    );
}

#[test]
fn set_active_switches_only_to_known_providers() {
    let mut registry = ProviderRegistry::new();
    assert_eq!(registry.active_provider(), "deepseek");
    registry.set_active("ollama").unwrap();
    assert_eq!(registry.active_provider(), "ollama");
    assert!(registry.set_active("missing").is_err());
    assert_eq!(registry.active_provider(), "ollama");
}

#[test]
fn name_validity_rule() {
    assert!(ProviderRegistry::is_name_valid("my-llm-2"));
    assert!(!ProviderRegistry::is_name_valid("my_llm"));
    assert!(!ProviderRegistry::is_name_valid(""));
    assert!(!ProviderRegistry::is_name_valid("has space"));
    assert!(!ProviderRegistry::is_name_valid("UPPER"));
}

#[test]
fn builtin_names_are_the_ten_builtins() {
    let registry = ProviderRegistry::new();
    let names = registry.builtin_names();
    assert_eq!(names.len(), 10);
    assert!(registry.is_builtin("vllm"));
    assert!(!registry.is_builtin("my-llm"));
}

#[test]
fn all_providers_are_sorted_by_name() {
    let registry = ProviderRegistry::new();
    let names: Vec<String> = registry
        .all_providers()
        .iter()
        .map(|p| p.name.clone())
        .collect();
    let mut sorted = names.clone();
    sorted.sort();
    assert_eq!(names, sorted);
}

#[test]
fn custom_headers_are_kept() {
    let mut registry = ProviderRegistry::new();
    let mut headers = HashMap::new();
    headers.insert("x-team".to_string(), "core".to_string());
    let mut e = custom_entry("hdr", Some("https://h"));
    e.http_headers = Some(headers);
    registry.register(e).unwrap();
    assert_eq!(
        registry.get("hdr").unwrap().http_headers.get("x-team"),
        Some(&"core".to_string())
    );
}

#[test]
fn custom_provider_without_protocol_is_openai_compatible() {
    let mut registry = ProviderRegistry::new();
    let mut custom = ProvidersToml::default();
    custom.entries.push((
        "my-gpt".to_string(),
        ProviderTomlConfig {
            base_url: Some("https://api.my-gpt.com/v1".to_string()),
            capabilities: Some(deepseek_tui::models::ModelCapabilities {
                thinking_supported: Some(false),
                supports_tools: Some(true),
                context_window: Some(128000),
                max_output: Some(4096),
                ..deepseek_tui::models::ModelCapabilities::default()
            }),
            ..ProviderTomlConfig::default()
        },
    ));
    registry.load_from_custom_providers(&custom).unwrap();
    let p = registry.get("my-gpt").unwrap();
    assert_eq!(p.protocol, ProtocolType::OpenaiCompatible);
    assert_eq!(p.capabilities.thinking_supported, Some(false));
    assert_eq!(p.capabilities.context_window, Some(128000));
    assert_eq!(p.capabilities.supports_streaming, Some(true));
}

#[test]
fn custom_provider_errors_stop_the_load() {
    let mut registry = ProviderRegistry::new();
    let mut custom = ProvidersToml::default();
    custom.entries.push((
        "ok-one".to_string(),
        ProviderTomlConfig {
            base_url: Some("https://a".to_string()),
            ..ProviderTomlConfig::default()
        },
    ));
    custom.entries.push((
        "bad-proto".to_string(),
        ProviderTomlConfig {
            protocol: Some("grpc".to_string()),
            base_url: Some("https://b".to_string()),
            ..ProviderTomlConfig::default()
        },
    ));
    custom.entries.push((
        "never".to_string(),
        ProviderTomlConfig {
            base_url: Some("https://c".to_string()),
            ..ProviderTomlConfig::default()
        },
    ));
    let err = registry.load_from_custom_providers(&custom).unwrap_err();
    assert_eq!(err.kind, RegistryErrorKind::UnknownProtocol);
    assert_eq!(err.protocol, "grpc");
    assert!(registry.get("ok-one").is_some());
    assert!(registry.get("never").is_none());
    let mut conflict = ProvidersToml::default();
    conflict.entries.push((
        "ollama".to_string(),
        ProviderTomlConfig {
            protocol: Some("openai_compatible".to_string()),
            ..ProviderTomlConfig::default()
        },
    ));
    assert_eq!(
        registry.load_from_custom_providers(&conflict).unwrap_err().kind,
        RegistryErrorKind::BuiltinProtocolConflict
    );
}

#[test]
fn error_messages_name_the_provider() {
    let mut registry = ProviderRegistry::new();
    let err = registry.set_active("ghost").unwrap_err();
    assert_eq!(err.message(), "provider 'ghost' not found");
}

#[test]
fn get_mut_changes_the_stored_provider() {
    let mut registry = ProviderRegistry::new();
    {
        let p = registry.get_mut("openai").unwrap();
        p.api_key = Some("sk-new".to_string());
    }
    assert_eq!(
        registry.get("openai").unwrap().api_key,
        Some("sk-new".to_string())
    );
    assert!(registry.get_mut("missing").is_none());
}

#[test]
fn override_then_unregister_restores_builtin_defaults() {
    let mut registry = ProviderRegistry::new();
    let default_url = registry.get("ollama").unwrap().base_url.clone();
    registry
        .apply_override_for_builtin(
            "ollama",
            None,
            Some("http://elsewhere:1/v1".to_string()),
            None,
            None,
            None,
        )
        .unwrap();
    assert_eq!(registry.get("ollama").unwrap().base_url, "http://elsewhere:1/v1");
    assert_eq!(
        registry.unregister("ollama").unwrap(),
        UnregisterOutcome::ClearedOverride
    );
    assert_eq!(registry.get("ollama").unwrap().base_url, default_url);
    assert_eq!(
        registry
            .apply_override_for_builtin("nope", None, None, None, None, None)
            .unwrap_err()
            .kind,
        RegistryErrorKind::NotFound
    );
}

#[test]
fn provider_section_with_only_headers_changes_nothing() {
    let mut registry = ProviderRegistry::new();
    let mut providers = ProvidersConfig::default();
    let mut headers = HashMap::new();
    headers.insert("x-team".to_string(), "core".to_string());
    providers.vllm.http_headers = Some(headers);
    providers.sglang.model = Some("m".to_string());
    let caps_before = registry.get("sglang").unwrap().capabilities;
    registry.load_from_providers_config(&providers).unwrap();
    assert!(registry.get("vllm").unwrap().http_headers.is_empty());
    assert!(registry.get("vllm").unwrap().overridden_fields.is_empty());
    let sglang = registry.get("sglang").unwrap();
    assert_eq!(sglang.default_model, Some("m".to_string()));
    assert_eq!(sglang.capabilities, caps_before);
}
