use deepseek_tui::models::{Message, MessageRequest};
use deepseek_tui::config::ProtocolType;
use deepseek_tui::protocol_adapter::{
    header_forwarded, is_protected_header, trim_trailing_slashes, AnthropicMessagesAdapter,
    GoogleGeminiAdapter, OpenAiCompatibleAdapter, ProtocolAdapterFactory,
};

#[test]
fn factory_creates_openai_compatible() {
    let adapter = ProtocolAdapterFactory::create(ProtocolType::OpenaiCompatible);
    assert_eq!(adapter.protocol_type(), ProtocolType::OpenaiCompatible);
}

#[test]
fn factory_creates_anthropic_messages() {
    let adapter = ProtocolAdapterFactory::create(ProtocolType::AnthropicMessages);
    assert_eq!(adapter.protocol_type(), ProtocolType::AnthropicMessages);
}

#[test]
fn factory_creates_google_gemini() {
    let adapter = ProtocolAdapterFactory::create(ProtocolType::GoogleGemini);
    assert_eq!(adapter.protocol_type(), ProtocolType::GoogleGemini);
}

#[test]
fn protected_headers_blocks_authorization() {
    assert!(is_protected_header("authorization"));
    assert!(is_protected_header("Authorization"));
    assert!(is_protected_header("AUTHORIZATION"));
}

#[test]
fn protected_headers_blocks_content_type() {
    assert!(is_protected_header("content-type"));
    assert!(is_protected_header("Content-Type"));
}

#[test]
fn protected_headers_allows_custom() {
    assert!(!is_protected_header("x-custom-header"));
    assert!(!is_protected_header("x-api-key"));
}

#[test]
fn openai_auth_headers_include_bearer() {
    let adapter = OpenAiCompatibleAdapter;
    let headers = adapter.build_auth_headers("sk-test123");
    assert!(headers.contains_key(reqwest::header::AUTHORIZATION));
    assert_eq!(headers.get("authorization").unwrap(), "Bearer sk-test123");
}

#[test]
fn anthropic_auth_headers_include_x_api_key() {
    let adapter = AnthropicMessagesAdapter;
    let headers = adapter.build_auth_headers("sk-ant-test");
    assert!(headers.contains_key("x-api-key"));
    assert!(headers.contains_key("anthropic-version"));
    assert_eq!(headers.get("x-api-key").unwrap(), "sk-ant-test");
    assert_eq!(headers.get("anthropic-version").unwrap(), "2023-06-01");
    assert_eq!(headers.len(), 2);
}

#[test]
fn gemini_auth_headers_are_empty() {
    let adapter = GoogleGeminiAdapter;
    assert!(adapter.build_auth_headers("key").is_empty());
}

#[test]
fn request_auth_headers_without_key_are_empty() {
    let adapter = ProtocolAdapterFactory::create(ProtocolType::OpenaiCompatible);
    assert!(adapter.request_auth_headers(None).is_empty());
    assert_eq!(adapter.request_auth_headers(Some("k")).len(), 1);
}

#[test]
fn endpoints_drop_trailing_slashes() {
    assert_eq!(
        OpenAiCompatibleAdapter.endpoint("https://api.example.com/v1//"),
        "https://api.example.com/v1/chat/completions"
    );
    assert_eq!(
        AnthropicMessagesAdapter.endpoint("https://api.anthropic.com/"),
        "https://api.anthropic.com/v1/messages"
    );
    assert_eq!(trim_trailing_slashes("///"), "");
    assert_eq!(trim_trailing_slashes("a/b"), "a/b");
}

#[test]
fn gemini_endpoint_carries_model_and_key() {
    let g = GoogleGeminiAdapter;
    assert_eq!(
        g.endpoint("https://g.example/", "gemini-2.5-flash", Some("K1"), false),
        "https://g.example/v1beta/models/gemini-2.5-flash:generateContent?key=K1"
    );
    assert_eq!(
        g.endpoint("https://g.example", "m", None, true),
        "https://g.example/v1beta/models/m:streamGenerateContent"
    );
}

#[test]
fn extra_headers_are_forwarded_only_when_allowed_and_valid() {
    assert!(header_forwarded("x-custom-header", "value"));
    assert!(!header_forwarded("Authorization", "Bearer x"));
    assert!(!header_forwarded("content-type", "text/plain"));
    assert!(!header_forwarded("bad header", "v"));
    assert!(!header_forwarded("", "v"));
    assert!(!header_forwarded("x-ok", "line\nbreak"));
    assert!(header_forwarded("x-ok", "tab\tok"));
}

#[test]
fn chat_body_fields_carry_the_request_settings() {
    let req = MessageRequest {
        model: "deepseek-v4-pro".to_string(),
        messages: vec![Message { role: "user".to_string(), content: vec![] }],
        max_tokens: 512,
        system: None,
        tools: None,
        tool_choice: Some(serde_json::Value::from("auto")),
        metadata: None,
        thinking: None,
        reasoning_effort: Some("high".to_string()),
        stream: None,
        temperature: Some(0.25f32.to_bits()),
        top_p: None,
    };
    let f = OpenAiCompatibleAdapter.chat_body_fields(&req, true);
    assert_eq!(f.model, "deepseek-v4-pro");
    assert_eq!(f.max_tokens, 512);
    assert!(f.stream);
    assert_eq!(f.tool_choice, Some(serde_json::Value::from("auto")));
    assert_eq!(f.temperature, Some(0.25f32.to_bits()));
    assert_eq!(f.top_p, None);
    assert_eq!(f.reasoning_effort, Some("high".to_string()));
    assert!(!OpenAiCompatibleAdapter.chat_body_fields(&req, false).stream);
}
