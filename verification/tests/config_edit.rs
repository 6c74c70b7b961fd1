use deepseek_tui::config_edit::{add_provider_to_config_text, ConfigEditError};

fn parse(s: &str) -> toml::Table {
    toml::from_str(s).unwrap()
}

#[test]
fn new_file_gets_the_provider_table() {
    let out = add_provider_to_config_text(
        None,
        "my-gpt",
        "https://api.my-gpt.com/v1",
        "openai_compatible",
        Some("sk-1"),
    )
    .unwrap();
    let t = parse(&out);
    let p = t["providers"]["my-gpt"].as_table().unwrap();
    assert_eq!(p["base_url"].as_str(), Some("https://api.my-gpt.com/v1"));
    assert_eq!(p["protocol"].as_str(), Some("openai_compatible"));
    assert_eq!(p["api_key"].as_str(), Some("sk-1"));
}

#[test]
fn existing_settings_are_kept() {
    let raw = "model = \"deepseek-v4-pro\"\n\n[providers.my-gpt]\nmodel = \"gpt-4o\"\nbase_url = \"old\"\n\n[providers.other]\nbase_url = \"o\"\n\n[tui]\ntheme = \"dark\"\n";
    let out = add_provider_to_config_text(Some(raw), "my-gpt", "new", "google_gemini", None).unwrap();
    let t = parse(&out);
    assert_eq!(t["model"].as_str(), Some("deepseek-v4-pro"));
    assert_eq!(t["tui"]["theme"].as_str(), Some("dark"));
    assert_eq!(t["providers"]["other"]["base_url"].as_str(), Some("o"));
    let p = t["providers"]["my-gpt"].as_table().unwrap();
    assert_eq!(p["base_url"].as_str(), Some("new"));
    assert_eq!(p["protocol"].as_str(), Some("google_gemini"));
    assert_eq!(p["model"].as_str(), Some("gpt-4o"));
    assert!(p.get("api_key").is_none());
}

#[test]
fn non_table_settings_are_refused() {
    assert_eq!(
        add_provider_to_config_text(Some("providers = 3\n"), "x", "u", "p", None),
        Err(ConfigEditError::ProvidersNotTable)
    );
    assert_eq!(
        add_provider_to_config_text(Some("[providers]\nx = \"s\"\n"), "x", "u", "p", None),
        Err(ConfigEditError::EntryNotTable)
    );
    assert_eq!(
        add_provider_to_config_text(Some("[providers\n"), "x", "u", "p", None),
        Err(ConfigEditError::Parse)
    );
}
