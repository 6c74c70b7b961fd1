//! Provider identities, wire protocols and the per-provider configuration records.
use std::collections::HashMap;
use vstd::prelude::*;

use crate::text::str_eq;

verus! {

/// The providers the client knows out of the box.
#[derive(Clone, Copy, Debug, PartialEq, Eq, Hash, Structural)]
pub enum ApiProvider {
    Deepseek,
    DeepseekCN,
    NvidiaNim,
    Openai,
    Openrouter,
    Novita,
    Fireworks,
    Sglang,
    Vllm,
    Ollama,
}

/// The wire protocol a provider speaks.
#[derive(Clone, Copy, Debug, PartialEq, Eq, Hash, Structural)]
pub enum ProtocolType {
    OpenaiCompatible,
    AnthropicMessages,
    GoogleGemini,
}

/// The shape of the request body sent to a provider.
#[derive(Clone, Copy, Debug, PartialEq, Eq, Hash, Structural)]
pub enum RequestPayloadMode {
    ChatCompletions,
    AnthropicMessages,
    GoogleGemini,
}

/// A model id that is an old alias of another model.
#[derive(Clone, Debug)]
pub struct ModelAliasDeprecation {
    pub alias: String,
    pub replacement: String,
}

/// The model ids that are deprecated aliases.
pub open spec fn is_deprecated_alias(model_lower: Seq<char>) -> bool {
    model_lower == "deepseek-chat"@ || model_lower == "deepseek-reasoner"@
}

/// The deprecation notice for a model id that is an old alias, if it is one.
pub fn deepseek_alias_deprecation(model_lower: &str) -> (r: Option<ModelAliasDeprecation>)
    ensures
        r is Some <==> is_deprecated_alias(model_lower@),
        r matches Some(d) ==> d.alias@ == model_lower@ && d.replacement@ == "deepseek-v4-flash"@,
{
    if str_eq(model_lower, "deepseek-chat") || str_eq(model_lower, "deepseek-reasoner") {
        Some(
            ModelAliasDeprecation {
                alias: model_lower.to_owned(),
                replacement: "deepseek-v4-flash".to_owned(),
            },
        )
    } else {
        None
    }
}

/// Concrete capability values used when building requests for a provider.
#[derive(Clone, Debug)]
pub struct ProviderCapability {
    pub provider: ApiProvider,
    pub resolved_model: String,
    pub context_window: u32,
    pub max_output: u32,
    pub thinking_supported: bool,
    pub cache_telemetry_supported: bool,
    pub request_payload_mode: RequestPayloadMode,
    pub alias_deprecation: Option<ModelAliasDeprecation>,
}

/// The `[providers.<builtin>]` settings of one builtin provider.
#[derive(Clone, Debug)]
pub struct ProviderConfig {
    pub api_key: Option<String>,
    pub base_url: Option<String>,
    pub model: Option<String>,
    pub http_headers: Option<HashMap<String, String>>,
}

impl Default for ProviderConfig {
    fn default() -> (r: Self)
        ensures
            r.api_key is None,
            r.base_url is None,
            r.model is None,
            r.http_headers is None,
    {
        ProviderConfig { api_key: None, base_url: None, model: None, http_headers: None }
    }
}

/// The settings of all builtin providers.
#[derive(Clone, Debug)]
pub struct ProvidersConfig {
    pub deepseek: ProviderConfig,
    pub deepseek_cn: ProviderConfig,
    pub nvidia_nim: ProviderConfig,
    pub openai: ProviderConfig,
    pub openrouter: ProviderConfig,
    pub novita: ProviderConfig,
    pub fireworks: ProviderConfig,
    pub sglang: ProviderConfig,
    pub vllm: ProviderConfig,
    pub ollama: ProviderConfig,
}

pub open spec fn config_is_empty(c: ProviderConfig) -> bool {
    c.api_key is None && c.base_url is None && c.model is None && c.http_headers is None
}

impl Default for ProvidersConfig {
    fn default() -> (r: Self)
        ensures
            config_is_empty(r.deepseek),
            config_is_empty(r.deepseek_cn),
            config_is_empty(r.nvidia_nim),
            config_is_empty(r.openai),
            config_is_empty(r.openrouter),
            config_is_empty(r.novita),
            config_is_empty(r.fireworks),
            config_is_empty(r.sglang),
            config_is_empty(r.vllm),
            config_is_empty(r.ollama),
    {
        ProvidersConfig {
            deepseek: ProviderConfig::default(),
            deepseek_cn: ProviderConfig::default(),
            nvidia_nim: ProviderConfig::default(),
            openai: ProviderConfig::default(),
            openrouter: ProviderConfig::default(),
            novita: ProviderConfig::default(),
            fireworks: ProviderConfig::default(),
            sglang: ProviderConfig::default(),
            vllm: ProviderConfig::default(),
            ollama: ProviderConfig::default(),
        }
    }
}

/// The part of the client configuration that the provider picker is handed.
#[derive(Clone, Debug)]
pub struct Config {
    pub providers: ProvidersConfig,
}

impl Default for Config {
    fn default() -> (r: Self)
        ensures
            config_is_empty(r.providers.deepseek),
            config_is_empty(r.providers.openai),
    {
        Config { providers: ProvidersConfig::default() }
    }
}

} // verus!
