use deepseek_tui::config::Config;
use deepseek_tui::provider_picker::{
    env_var_for, mask_key, provider_hint, KeyCode, KeyEvent, ModalKind, ProviderPickerView,
    ProviderRow, ViewAction, ViewEvent,
};
use deepseek_tui::provider_registry::{ProviderEntry, ProviderRegistry};

fn make_registry() -> ProviderRegistry {
    ProviderRegistry::new()
}

fn make_config() -> Config {
    Config::default()
}

fn key(code: KeyCode) -> KeyEvent {
    KeyEvent {
        code,
        control: false,
    }
}

#[test]
fn test_picker_new_selects_active() {
    let registry = make_registry();
    let config = make_config();
    let picker = ProviderPickerView::new("deepseek", &registry, &config);
    assert_eq!(picker.selected_name(), "deepseek");
}

#[test]
fn test_picker_navigation() {
    let registry = make_registry();
    let config = make_config();
    let mut picker = ProviderPickerView::new("deepseek", &registry, &config);
    picker.move_down();
    assert_ne!(picker.selected_name(), "deepseek");
    picker.move_up();
    assert_eq!(picker.selected_name(), "deepseek");
}

#[test]
fn test_picker_enter_without_key_goes_to_key_entry() {
    let registry = make_registry();
    let config = make_config();
    let mut picker = ProviderPickerView::new("ollama", &registry, &config);
    let action = picker.handle_key(key(KeyCode::Enter));
    assert!(matches!(action, ViewAction::Noop));
}

#[test]
fn test_picker_enter_with_key_applies() {
    let registry = make_registry();
    let config = make_config();
    let mut picker = ProviderPickerView::new("deepseek", &registry, &config);
    picker.handle_key(key(KeyCode::Enter));
}

#[test]
fn test_picker_key_entry_submit() {
    let registry = make_registry();
    let config = make_config();
    let mut picker = ProviderPickerView::new("ollama", &registry, &config);
    picker.handle_key(key(KeyCode::Enter));
    picker.handle_key(key(KeyCode::Char('s')));
    picker.handle_key(key(KeyCode::Char('k')));
    let action = picker.handle_key(key(KeyCode::Enter));
    match action {
        ViewAction::EmitAndClose(ViewEvent::ProviderPickerApiKeySubmitted {
            provider_name,
            api_key,
        }) => {
            assert_eq!(provider_name, "ollama");
            assert_eq!(api_key, "sk");
        }
        other => panic!(
            "expected EmitAndClose(ProviderPickerApiKeySubmitted), got {:?}",
            other
        ),
    }
}

#[test]
fn picker_selects_first_row_for_unknown_active() {
    let picker = ProviderPickerView::new("nope", &make_registry(), &make_config());
    assert_eq!(picker.selected_name(), "deepseek");
    assert!(matches!(picker.kind(), ModalKind::ProviderPicker));
}

#[test]
fn picker_up_at_top_stays_and_down_at_bottom_stays() {
    let mut picker = ProviderPickerView::new("deepseek", &make_registry(), &make_config());
    picker.move_up();
    assert_eq!(picker.selected_name(), "deepseek");
    let mut last = ProviderPickerView::new("vllm", &make_registry(), &make_config());
    last.move_down();
    assert_eq!(last.selected_name(), "vllm");
}

#[test]
fn picker_escape_in_list_closes() {
    let mut picker = ProviderPickerView::new("deepseek", &make_registry(), &make_config());
    assert!(matches!(picker.handle_key(key(KeyCode::Esc)), ViewAction::Close));
}

#[test]
fn picker_key_entry_ignores_whitespace_and_backspace_pops() {
    let mut picker = ProviderPickerView::new("ollama", &make_registry(), &make_config());
    picker.handle_key(key(KeyCode::Enter));
    picker.handle_key(key(KeyCode::Char('a')));
    picker.handle_key(key(KeyCode::Char(' ')));
    picker.handle_key(key(KeyCode::Char('b')));
    picker.handle_key(key(KeyCode::Backspace));
    picker.handle_key(KeyEvent {
        code: KeyCode::Char('h'),
        control: true,
    });
    picker.handle_key(key(KeyCode::Char('z')));
    match picker.handle_key(key(KeyCode::Enter)) {
        ViewAction::EmitAndClose(ViewEvent::ProviderPickerApiKeySubmitted { api_key, .. }) => {
            assert_eq!(api_key, "z")
        }
        other => panic!("unexpected {:?}", other),
    }
}

#[test]
fn picker_empty_key_is_not_submitted() {
    let mut picker = ProviderPickerView::new("ollama", &make_registry(), &make_config());
    picker.handle_key(key(KeyCode::Enter));
    assert!(matches!(picker.handle_key(key(KeyCode::Enter)), ViewAction::Noop));
    picker.handle_key(key(KeyCode::Esc));
    assert!(matches!(picker.handle_key(key(KeyCode::Esc)), ViewAction::Close));
}

#[test]
fn picker_paste_only_in_key_entry() {
    let mut picker = ProviderPickerView::new("ollama", &make_registry(), &make_config());
    assert!(!picker.handle_paste("abc"));
    picker.handle_key(key(KeyCode::Enter));
    assert!(picker.handle_paste(" sk-1 2\n"));
    match picker.handle_key(key(KeyCode::Enter)) {
        ViewAction::EmitAndClose(ViewEvent::ProviderPickerApiKeySubmitted { api_key, .. }) => {
            assert_eq!(api_key, "sk-12")
        }
        other => panic!("unexpected {:?}", other),
    }
}

#[test]
fn picker_delete_only_user_defined() {
    let mut registry = make_registry();
    registry
        .register(ProviderEntry {
            name: "aaa-custom".to_string(),
            display_name: None,
            protocol: Some(deepseek_tui::config::ProtocolType::OpenaiCompatible),
            base_url: Some("https://a".to_string()),
            api_key: Some("k".to_string()),
            default_model: None,
            http_headers: None,
            capabilities: None,
            is_builtin: false,
        })
        .unwrap();
    let mut builtin = ProviderPickerView::new("deepseek", &registry, &make_config());
    builtin.handle_key(key(KeyCode::Char('d')));
    assert!(matches!(builtin.handle_key(key(KeyCode::Char('y'))), ViewAction::Noop));

    let mut custom = ProviderPickerView::new("aaa-custom", &registry, &make_config());
    assert_eq!(custom.selected_name(), "aaa-custom");
    custom.handle_key(key(KeyCode::Delete));
    match custom.handle_key(key(KeyCode::Char('Y'))) {
        ViewAction::EmitAndClose(ViewEvent::ProviderPickerDeleteRequested { provider_name }) => {
            assert_eq!(provider_name, "aaa-custom")
        }
        other => panic!("unexpected {:?}", other),
    }
}

#[test]
fn picker_add_provider_form() {
    let mut picker = ProviderPickerView::new("deepseek", &make_registry(), &make_config());
    picker.handle_key(key(KeyCode::Char('a')));
    for c in "my".chars() {
        picker.handle_key(key(KeyCode::Char(c)));
    }
    picker.handle_key(key(KeyCode::Tab));
    for c in "http://x ".chars() {
        picker.handle_key(key(KeyCode::Char(c)));
    }
    picker.handle_key(key(KeyCode::Tab));
    picker.handle_key(key(KeyCode::Down));
    picker.handle_key(key(KeyCode::Down));
    picker.handle_key(key(KeyCode::Down));
    picker.handle_key(key(KeyCode::Up));
    match picker.handle_key(key(KeyCode::Enter)) {
        ViewAction::EmitAndClose(ViewEvent::ProviderPickerAddRequested {
            name,
            base_url,
            protocol,
            api_key,
        }) => {
            assert_eq!(name, "my");
            assert_eq!(base_url, "http://x");
            assert_eq!(protocol, "anthropic_messages");
            assert_eq!(api_key, None);
        }
        other => panic!("unexpected {:?}", other),
    }
}

#[test]
fn picker_add_requires_name_and_url() {
    let mut picker = ProviderPickerView::new("deepseek", &make_registry(), &make_config());
    picker.handle_key(key(KeyCode::Char('a')));
    picker.handle_key(key(KeyCode::Char('n')));
    assert!(matches!(picker.handle_key(key(KeyCode::Enter)), ViewAction::Noop));
}

#[test]
fn env_var_for_upper_cases_and_replaces_hyphens() {
    assert_eq!(env_var_for("my-llm"), "DEEPSEEK_PROVIDER_MY_LLM_API_KEY");
    assert_eq!(env_var_for("ollama"), "DEEPSEEK_PROVIDER_OLLAMA_API_KEY");
}

#[test]
fn mask_key_keeps_last_four() {
    assert_eq!(mask_key(""), "");
    assert_eq!(mask_key("  "), "");
    assert_eq!(mask_key("abcd"), "****");
    assert_eq!(mask_key(" sk-123456 "), "*****3456");
}

#[test]
fn provider_hints() {
    let row = |name: &str, has_key: bool| ProviderRow {
        name: name.to_string(),
        display_name: name.to_string(),
        has_key,
        is_builtin: true,
    };
    assert_eq!(
        provider_hint(&row("ollama", false)),
        "self-hosted; defaults to http://localhost:11434"
    );
    assert_eq!(provider_hint(&row("vllm", true)), "(configured; optional key)");
    assert_eq!(provider_hint(&row("sglang", false)), "(optional key)");
    assert_eq!(provider_hint(&row("openai", true)), "(configured)");
    assert_eq!(provider_hint(&row("openai", false)), "(needs API key)");
}
