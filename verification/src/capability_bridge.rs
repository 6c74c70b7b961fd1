//! Capability resolution: provider -> protocol, model id -> builtin capabilities,
//! and the three-tier merge user -> builtin -> protocol defaults.
use vstd::prelude::*;

use crate::config::{
    deepseek_alias_deprecation, is_deprecated_alias, ApiProvider, ModelAliasDeprecation,
    ProtocolType, ProviderCapability, RequestPayloadMode,
};
use crate::models::{
    caps_none, context_window_for_model, merge_caps, merge_caps_associative, merge_caps_identity, spec_context_window_for_model,
    ModelCapabilities, DEEPSEEK_V4_CONTEXT_WINDOW_TOKENS, LEGACY_DEEPSEEK_CONTEXT_WINDOW_TOKENS,
};
use crate::text::{
    ascii_lower, chars_of, lemma_self_contains, contains_seq, is_ascii_digit, is_digit, occurs_at, occurs_at_exec,
    seq_contains, str_contains, str_eq, to_ascii_lowercase, trim_str, trimmed,
};

verus! {

pub struct CapabilityBridge;

/// Capabilities of the DeepSeek model whose pattern is matched; `reasoning`
/// tells the reasoning models from the chat models.
pub open spec fn deepseek_pattern_caps(reasoning: bool) -> ModelCapabilities {
    ModelCapabilities {
        thinking_supported: Some(true),
        supports_tools: None,
        supports_reasoning: Some(reasoning),
        supports_vision: None,
        supports_streaming: None,
        supports_embedding: None,
        context_window: Some(DEEPSEEK_V4_CONTEXT_WINDOW_TOKENS),
        max_output: Some(384_000),
        cache_telemetry_supported: Some(true),
    }
}

/// The first pattern of the DeepSeek table that the lower-cased model id contains.
pub open spec fn spec_lookup_model_pattern(m: Seq<char>) -> Option<ModelCapabilities> {
    if seq_contains(m, "deepseek-v4-pro"@) {
        Some(deepseek_pattern_caps(true))
    } else if seq_contains(m, "deepseek-v4-flash"@) {
        Some(deepseek_pattern_caps(false))
    } else if seq_contains(m, "deepseek-reasoner"@) {
        Some(deepseek_pattern_caps(true))
    } else if seq_contains(m, "deepseek-chat"@) {
        Some(deepseek_pattern_caps(false))
    } else {
        None
    }
}

/// `m` holds `deepseek-r` directly followed by an ASCII digit.
pub open spec fn spec_has_r_series_marker(m: Seq<char>) -> bool {
    exists|i: int| occurs_at(m, "deepseek-r"@, i) && i + 10 < m.len() && is_digit(m[i + 10])
}

/// Whether a (lower-cased) model id names a reasoning model.
pub open spec fn spec_infer_supports_reasoning(m: Seq<char>) -> bool {
    ||| seq_contains(m, "deepseek-v4"@)
    ||| seq_contains(m, "reasoner"@)
    ||| seq_contains(m, "-reasoning"@)
    ||| seq_contains(m, "-thinking"@)
    ||| spec_has_r_series_marker(m)
}

/// Providers that report prompt-cache telemetry.
pub open spec fn reports_cache_telemetry(p: ApiProvider) -> bool {
    p == ApiProvider::Deepseek || p == ApiProvider::DeepseekCN || p == ApiProvider::NvidiaNim
}

/// Whether a (lower-cased) model id outside the pattern table is a V4 model.
pub open spec fn spec_is_v4(m: Seq<char>) -> bool {
    ||| seq_contains(m, "v4-pro"@)
    ||| seq_contains(m, "v4-flash"@)
    ||| m == "deepseek-v4pro"@
    ||| m == "deepseek-v4flash"@
    ||| m == "deepseek-v4"@
    ||| is_deprecated_alias(m)
}

/// Conservative capabilities for the self-hosted and generic endpoints.
pub open spec fn fixed_caps(context_window: u32) -> ModelCapabilities {
    ModelCapabilities {
        context_window: Some(context_window),
        max_output: Some(4_096),
        thinking_supported: Some(false),
        cache_telemetry_supported: Some(false),
        ..caps_none()
    }
}

pub open spec fn spec_builtin_model_capabilities(p: ApiProvider, model: Seq<char>) -> ModelCapabilities {
    let m = ascii_lower(model);
    if p == ApiProvider::Ollama {
        fixed_caps(8_192)
    } else if p == ApiProvider::Openai {
        fixed_caps(LEGACY_DEEPSEEK_CONTEXT_WINDOW_TOKENS)
    } else {
        match spec_lookup_model_pattern(m) {
            Some(c) => ModelCapabilities {
                cache_telemetry_supported: Some(reports_cache_telemetry(p)),
                ..c
            },
            None => {
                let v4 = spec_is_v4(m);
                ModelCapabilities {
                    thinking_supported: Some(v4),
                    supports_reasoning: Some(spec_infer_supports_reasoning(m)),
                    context_window: if v4 {
                        Some(DEEPSEEK_V4_CONTEXT_WINDOW_TOKENS)
                    } else {
                        spec_context_window_for_model(model)
                    },
                    max_output: Some(if v4 { 384_000u32 } else { 4_096u32 }),
                    cache_telemetry_supported: Some(reports_cache_telemetry(p)),
                    ..caps_none()
                }
            },
        }
    }
}

pub open spec fn spec_protocol_defaults(protocol: ProtocolType) -> ModelCapabilities {
    match protocol {
        ProtocolType::OpenaiCompatible => ModelCapabilities {
            supports_tools: Some(true),
            supports_streaming: Some(true),
            context_window: Some(128_000),
            max_output: Some(4_096),
            ..caps_none()
        },
        ProtocolType::AnthropicMessages => ModelCapabilities {
            supports_tools: Some(true),
            supports_streaming: Some(true),
            supports_vision: Some(true),
            thinking_supported: Some(false),
            supports_reasoning: Some(false),
            context_window: Some(200_000),
            max_output: Some(8_192),
            ..caps_none()
        },
        ProtocolType::GoogleGemini => ModelCapabilities {
            supports_tools: Some(true),
            supports_streaming: Some(true),
            supports_vision: Some(true),
            supports_embedding: Some(true),
            context_window: Some(1_000_000),
            max_output: Some(8_192),
            ..caps_none()
        },
    }
}

pub open spec fn spec_request_payload_mode(protocol: ProtocolType) -> RequestPayloadMode {
    match protocol {
        ProtocolType::OpenaiCompatible => RequestPayloadMode::ChatCompletions,
        ProtocolType::AnthropicMessages => RequestPayloadMode::AnthropicMessages,
        ProtocolType::GoogleGemini => RequestPayloadMode::GoogleGemini,
    }
}

/// User settings over builtin defaults over protocol defaults, field by field.
pub open spec fn spec_resolve_capabilities(
    user: Option<ModelCapabilities>,
    builtin: Option<ModelCapabilities>,
    protocol: ProtocolType,
) -> ModelCapabilities {
    let base = spec_protocol_defaults(protocol);
    let with_builtin = match builtin {
        Some(b) => merge_caps(b, base),
        None => base,
    };
    match user {
        Some(u) => merge_caps(u, with_builtin),
        None => with_builtin,
    }
}

pub open spec fn unwrap_or<T>(o: Option<T>, d: T) -> T {
    match o {
        Some(x) => x,
        None => d,
    }
}

pub open spec fn spec_requires_reasoning(caps: ModelCapabilities) -> bool {
    unwrap_or(caps.thinking_supported, false) || unwrap_or(caps.supports_reasoning, false)
}

/// Effort values that switch reasoning off.
pub open spec fn is_effort_off(e: Seq<char>) -> bool {
    let v = ascii_lower(trimmed(e));
    v == "off"@ || v == "disabled"@ || v == "none"@ || v == "false"@
}

impl CapabilityBridge {
    /// Every builtin provider speaks the OpenAI-compatible protocol.
    pub fn provider_to_protocol(provider: ApiProvider) -> (r: ProtocolType)
        ensures
            r == ProtocolType::OpenaiCompatible,
    {
        match provider {
            ApiProvider::Deepseek
            | ApiProvider::DeepseekCN
            | ApiProvider::NvidiaNim
            | ApiProvider::Openai
            | ApiProvider::Openrouter
            | ApiProvider::Novita
            | ApiProvider::Fireworks
            | ApiProvider::Sglang
            | ApiProvider::Vllm
            | ApiProvider::Ollama => ProtocolType::OpenaiCompatible,
        }
    }

    pub fn builtin_model_capabilities(provider: ApiProvider, resolved_model: &str) -> (r:
        ModelCapabilities)
        ensures
            r == spec_builtin_model_capabilities(provider, resolved_model@),
    {
        let model_lower = to_ascii_lowercase(resolved_model);
        if provider == ApiProvider::Ollama {
            return ModelCapabilities {
                context_window: Some(8_192),
                max_output: Some(4_096),
                thinking_supported: Some(false),
                cache_telemetry_supported: Some(false),
                ..ModelCapabilities::default()
            };
        }
        if provider == ApiProvider::Openai {
            return ModelCapabilities {
                context_window: Some(LEGACY_DEEPSEEK_CONTEXT_WINDOW_TOKENS),
                max_output: Some(4_096),
                thinking_supported: Some(false),
                cache_telemetry_supported: Some(false),
                ..ModelCapabilities::default()
            };
        }
        let cache_telemetry_supported = provider == ApiProvider::Deepseek || provider
            == ApiProvider::DeepseekCN || provider == ApiProvider::NvidiaNim;
        if let Some(caps) = lookup_model_pattern(model_lower.as_str()) {
            return ModelCapabilities { cache_telemetry_supported: Some(cache_telemetry_supported), ..caps };
        }
        let m = model_lower.as_str();
        let is_v4 = str_contains(m, "v4-pro") || str_contains(m, "v4-flash") || str_eq(
            m,
            "deepseek-v4pro",
        ) || str_eq(m, "deepseek-v4flash") || str_eq(m, "deepseek-v4")
            || deepseek_alias_deprecation(m).is_some();
        let context_window = if is_v4 {
            Some(DEEPSEEK_V4_CONTEXT_WINDOW_TOKENS)
        } else {
            context_window_for_model(resolved_model)
        };
        let max_output = if is_v4 {
            Some(384_000)
        } else {
            Some(4_096)
        };
        let supports_reasoning = infer_supports_reasoning_from_model_id(m);
        ModelCapabilities {
            thinking_supported: Some(is_v4),
            supports_reasoning: Some(supports_reasoning),
            context_window,
            max_output,
            cache_telemetry_supported: Some(cache_telemetry_supported),
            ..ModelCapabilities::default()
        }
    }

    pub fn protocol_defaults(protocol: ProtocolType) -> (r: ModelCapabilities)
        ensures
            r == spec_protocol_defaults(protocol),
    {
        match protocol {
            ProtocolType::OpenaiCompatible => ModelCapabilities {
                supports_tools: Some(true),
                supports_streaming: Some(true),
                context_window: Some(128_000),
                max_output: Some(4_096),
                ..ModelCapabilities::default()
            },
            ProtocolType::AnthropicMessages => ModelCapabilities {
                supports_tools: Some(true),
                supports_streaming: Some(true),
                supports_vision: Some(true),
                thinking_supported: Some(false),
                supports_reasoning: Some(false),
                context_window: Some(200_000),
                max_output: Some(8_192),
                ..ModelCapabilities::default()
            },
            ProtocolType::GoogleGemini => ModelCapabilities {
                supports_tools: Some(true),
                supports_streaming: Some(true),
                supports_vision: Some(true),
                supports_embedding: Some(true),
                context_window: Some(1_000_000),
                max_output: Some(8_192),
                ..ModelCapabilities::default()
            },
        }
    }

    /// User settings, then builtin defaults, then protocol defaults.
    pub fn resolve_capabilities(
        user_caps: Option<&ModelCapabilities>,
        builtin_defaults: Option<&ModelCapabilities>,
        protocol: ProtocolType,
    ) -> (r: ModelCapabilities)
        ensures
            r == spec_resolve_capabilities(
                match user_caps {
                    Some(u) => Some(*u),
                    None => None,
                },
                match builtin_defaults {
                    Some(b) => Some(*b),
                    None => None,
                },
                protocol,
            ),
    {
        let protocol_defaults = Self::protocol_defaults(protocol);
        let with_builtin = match builtin_defaults {
            Some(bd) => bd.merge_with_defaults(&protocol_defaults),
            None => protocol_defaults,
        };
        match user_caps {
            Some(uc) => uc.merge_with_defaults(&with_builtin),
            None => with_builtin,
        }
    }

    pub fn request_payload_mode(protocol: ProtocolType) -> (r: RequestPayloadMode)
        ensures
            r == spec_request_payload_mode(protocol),
    {
        match protocol {
            ProtocolType::OpenaiCompatible => RequestPayloadMode::ChatCompletions,
            ProtocolType::AnthropicMessages => RequestPayloadMode::AnthropicMessages,
            ProtocolType::GoogleGemini => RequestPayloadMode::GoogleGemini,
        }
    }

    /// Concrete values from resolved capabilities: 128 000 tokens of context,
    /// 4 096 of output and no thinking or cache telemetry where nothing is stated.
    pub fn to_provider_capability(
        provider: ApiProvider,
        resolved_model: &str,
        caps: &ModelCapabilities,
        protocol: ProtocolType,
        alias_deprecation: Option<ModelAliasDeprecation>,
    ) -> (r: ProviderCapability)
        ensures
            r.provider == provider,
            r.resolved_model@ == resolved_model@,
            r.context_window == unwrap_or(caps.context_window, 128_000u32),
            r.max_output == unwrap_or(caps.max_output, 4_096u32),
            r.thinking_supported == unwrap_or(caps.thinking_supported, false),
            r.cache_telemetry_supported == unwrap_or(caps.cache_telemetry_supported, false),
            r.request_payload_mode == spec_request_payload_mode(protocol),
            r.alias_deprecation == alias_deprecation,
    {
        ProviderCapability {
            provider,
            resolved_model: resolved_model.to_owned(),
            context_window: match caps.context_window {
                Some(v) => v,
                None => 128_000,
            },
            max_output: match caps.max_output {
                Some(v) => v,
                None => 4_096,
            },
            thinking_supported: match caps.thinking_supported {
                Some(v) => v,
                None => false,
            },
            cache_telemetry_supported: match caps.cache_telemetry_supported {
                Some(v) => v,
                None => false,
            },
            request_payload_mode: Self::request_payload_mode(protocol),
            alias_deprecation,
        }
    }

    pub fn requires_reasoning(caps: &ModelCapabilities) -> (r: bool)
        ensures
            r == spec_requires_reasoning(*caps),
    {
        let thinking = match caps.thinking_supported {
            Some(v) => v,
            None => false,
        };
        let reasoning = match caps.supports_reasoning {
            Some(v) => v,
            None => false,
        };
        thinking || reasoning
    }

    /// Reasoning is replayed when the model needs it, unless the effort setting
    /// (trimmed, case-insensitive) is `off`, `disabled`, `none` or `false`.
    pub fn should_replay_reasoning(caps: &ModelCapabilities, effort: Option<&str>) -> (r: bool)
        ensures
            r == (spec_requires_reasoning(*caps) && !(effort matches Some(e) && is_effort_off(
                e@,
            ))),
    {
        let off = match effort {
            Some(value) => {
                let t = trim_str(value);
                let v = to_ascii_lowercase(t.as_str());
                let s = v.as_str();
                str_eq(s, "off") || str_eq(s, "disabled") || str_eq(s, "none") || str_eq(
                    s,
                    "false",
                )
            },
            None => false,
        };
        if off {
            return false;
        }
        Self::requires_reasoning(caps)
    }
}

/// The capabilities of the first DeepSeek pattern that the lower-cased model id contains.
pub fn lookup_model_pattern(model_lower: &str) -> (r: Option<ModelCapabilities>)
    ensures
        r == spec_lookup_model_pattern(model_lower@),
{
    proof {
        lemma_self_contains(model_lower@);
    }
    if str_contains(model_lower, "deepseek-v4-pro") || str_eq(model_lower, "deepseek-v4-pro") {
        Some(pattern_caps(true))
    } else if str_contains(model_lower, "deepseek-v4-flash") || str_eq(
        model_lower,
        "deepseek-v4-flash",
    ) {
        Some(pattern_caps(false))
    } else if str_contains(model_lower, "deepseek-reasoner") || str_eq(
        model_lower,
        "deepseek-reasoner",
    ) {
        Some(pattern_caps(true))
    } else if str_contains(model_lower, "deepseek-chat") || str_eq(model_lower, "deepseek-chat") {
        Some(pattern_caps(false))
    } else {
        None
    }
}

fn pattern_caps(reasoning: bool) -> (r: ModelCapabilities)
    ensures
        r == deepseek_pattern_caps(reasoning),
{
    ModelCapabilities {
        thinking_supported: Some(true),
        supports_tools: None,
        supports_reasoning: Some(reasoning),
        supports_vision: None,
        supports_streaming: None,
        supports_embedding: None,
        context_window: Some(DEEPSEEK_V4_CONTEXT_WINDOW_TOKENS),
        max_output: Some(384_000),
        cache_telemetry_supported: Some(true),
    }
}

/// Whether a lower-cased model id names a reasoning model.
pub fn infer_supports_reasoning_from_model_id(model_lower: &str) -> (r: bool)
    ensures
        r == spec_infer_supports_reasoning(model_lower@),
{
    str_contains(model_lower, "deepseek-v4") || str_contains(model_lower, "reasoner")
        || str_contains(model_lower, "-reasoning") || str_contains(model_lower, "-thinking")
        || has_deepseek_r_series_marker(model_lower)
}

/// Whether `deepseek-r` occurs directly followed by an ASCII digit.
pub fn has_deepseek_r_series_marker(model_lower: &str) -> (r: bool)
    ensures
        r == spec_has_r_series_marker(model_lower@),
{
    let m = chars_of(model_lower);
    let prefix = chars_of("deepseek-r");
    proof {
        reveal_strlit("deepseek-r");
    }
    assert(prefix@.len() == 10);
    let n = m.len();
    let mut i: usize = 0;
    while i < n
        invariant
            n == m@.len(),
            m@ == model_lower@,
            prefix@ == "deepseek-r"@,
            prefix@.len() == 10,
            i <= n,
            forall|k: int|
                0 <= k < i ==> !(occurs_at(m@, prefix@, k) && k + 10 < m@.len() && is_digit(
                    #[trigger] m@[k + 10],
                )),
        decreases n - i,
    {
        if occurs_at_exec(&m, &prefix, i) && i + 10 < n && is_ascii_digit(m[i + 10]) {
            return true;
        }
        i = i + 1;
    }
    proof {
        assert forall|k: int|
            !(occurs_at(m@, prefix@, k) && k + 10 < m@.len() && is_digit(m@[k + 10])) by {
            if 0 <= k && k < n {
                assert(!(occurs_at(m@, prefix@, k) && k + 10 < m@.len() && is_digit(m@[k + 10])));
            }
        }
    }
    false
}


/// The DeepSeek pattern table, pattern by pattern, in its order of precedence:
/// `deepseek-v4-pro` and `deepseek-reasoner` are reasoning models,
/// `deepseek-v4-flash` and `deepseek-chat` are not; every pattern states thinking
/// support, a 1,000,000-token context window, a 384,000-token output limit and
/// cache telemetry; a model id that holds none of the four patterns has no entry.
pub proof fn law_pattern_table(m: Seq<char>)
    ensures
        seq_contains(m, "deepseek-v4-pro"@) ==> (spec_lookup_model_pattern(m) matches Some(c)
            && c.supports_reasoning == Some(true)),
        !seq_contains(m, "deepseek-v4-pro"@) && seq_contains(m, "deepseek-v4-flash"@) ==> (
        spec_lookup_model_pattern(m) matches Some(c) && c.supports_reasoning == Some(false)),
        !seq_contains(m, "deepseek-v4-pro"@) && !seq_contains(m, "deepseek-v4-flash"@)
            && seq_contains(m, "deepseek-reasoner"@) ==> (spec_lookup_model_pattern(m) matches Some(
            c,
        ) && c.supports_reasoning == Some(true)),
        !seq_contains(m, "deepseek-v4-pro"@) && !seq_contains(m, "deepseek-v4-flash"@)
            && !seq_contains(m, "deepseek-reasoner"@) && seq_contains(m, "deepseek-chat"@) ==> (
        spec_lookup_model_pattern(m) matches Some(c) && c.supports_reasoning == Some(false)),
        !seq_contains(m, "deepseek-v4-pro"@) && !seq_contains(m, "deepseek-v4-flash"@)
            && !seq_contains(m, "deepseek-reasoner"@) && !seq_contains(m, "deepseek-chat"@)
            ==> spec_lookup_model_pattern(m) is None,
        spec_lookup_model_pattern(m) matches Some(c) ==> (c.thinking_supported == Some(true)
            && c.supports_tools is None && c.supports_vision is None && c.supports_streaming is None
            && c.supports_embedding is None && c.context_window == Some(1_000_000u32)
            && c.max_output == Some(384_000u32) && c.cache_telemetry_supported == Some(true)),
{
}

/// For every provider that consults the pattern table (all but Ollama and
/// OpenAI), the builtin capabilities of a model id follow the table's reasoning
/// flag: a lower-cased id that holds `deepseek-reasoner` (and neither V4 pattern)
/// or `deepseek-v4-pro` is a reasoning model, one that holds `deepseek-v4-flash`,
/// or `deepseek-chat` without an earlier pattern, is not.
pub proof fn law_builtin_pattern_reasoning(p: ApiProvider, model: Seq<char>)
    requires
        p != ApiProvider::Ollama,
        p != ApiProvider::Openai,
    ensures
        ({
            let m = ascii_lower(model);
            let r = spec_builtin_model_capabilities(p, model).supports_reasoning;
            &&& seq_contains(m, "deepseek-v4-pro"@) ==> r == Some(true)
            &&& !seq_contains(m, "deepseek-v4-pro"@) && seq_contains(m, "deepseek-v4-flash"@)
                ==> r == Some(false)
            &&& !seq_contains(m, "deepseek-v4-pro"@) && !seq_contains(m, "deepseek-v4-flash"@)
                && seq_contains(m, "deepseek-reasoner"@) ==> r == Some(true)
            &&& !seq_contains(m, "deepseek-v4-pro"@) && !seq_contains(m, "deepseek-v4-flash"@)
                && !seq_contains(m, "deepseek-reasoner"@) && seq_contains(m, "deepseek-chat"@)
                ==> r == Some(false)
        }),
{
}

/// Ollama and OpenAI get fixed conservative capabilities whatever the model:
/// an 8,192-token (Ollama) or 128,000-token (OpenAI) context window, a 4,096-token
/// output limit, no thinking and no cache telemetry, nothing else stated.
pub proof fn law_builtin_fixed_providers(model: Seq<char>)
    ensures
        ({
            let o = spec_builtin_model_capabilities(ApiProvider::Ollama, model);
            &&& o.context_window == Some(8_192u32)
            &&& o.max_output == Some(4_096u32)
            &&& o.thinking_supported == Some(false)
            &&& o.cache_telemetry_supported == Some(false)
            &&& o.supports_tools is None && o.supports_reasoning is None && o.supports_vision is None
                && o.supports_streaming is None && o.supports_embedding is None
        }),
        ({
            let o = spec_builtin_model_capabilities(ApiProvider::Openai, model);
            &&& o.context_window == Some(128_000u32)
            &&& o.max_output == Some(4_096u32)
            &&& o.thinking_supported == Some(false)
            &&& o.cache_telemetry_supported == Some(false)
            &&& o.supports_tools is None && o.supports_reasoning is None && o.supports_vision is None
                && o.supports_streaming is None && o.supports_embedding is None
        }),
{
}

/// For the providers that consult the pattern table, cache telemetry is
/// reported exactly by DeepSeek, DeepSeek CN and NVIDIA NIM, whatever the model;
/// a matched pattern keeps its 1,000,000-token window and 384,000-token limit.
pub proof fn law_builtin_telemetry(p: ApiProvider, model: Seq<char>)
    requires
        p != ApiProvider::Ollama,
        p != ApiProvider::Openai,
    ensures
        spec_builtin_model_capabilities(p, model).cache_telemetry_supported == Some(
            p == ApiProvider::Deepseek || p == ApiProvider::DeepseekCN || p == ApiProvider::NvidiaNim,
        ),
        spec_lookup_model_pattern(ascii_lower(model)) is Some ==> spec_builtin_model_capabilities(
            p,
            model,
        ).context_window == Some(1_000_000u32) && spec_builtin_model_capabilities(
            p,
            model,
        ).max_output == Some(384_000u32),
{
}

/// A lower-cased model id outside the pattern table names a reasoning model
/// when it holds `deepseek-v4`, `reasoner`, `-reasoning` or `-thinking`, or
/// `deepseek-r` directly followed by a digit; otherwise it does not.
pub proof fn law_infer_reasoning(m: Seq<char>)
    ensures
        seq_contains(m, "deepseek-v4"@) ==> spec_infer_supports_reasoning(m),
        seq_contains(m, "reasoner"@) ==> spec_infer_supports_reasoning(m),
        seq_contains(m, "-reasoning"@) ==> spec_infer_supports_reasoning(m),
        seq_contains(m, "-thinking"@) ==> spec_infer_supports_reasoning(m),
        forall|i: int|
            0 <= i && i + 10 < m.len() && #[trigger] m.subrange(i, i + 10) == "deepseek-r"@ && '0'
                <= m[i + 10] <= '9' ==> spec_infer_supports_reasoning(m),
        !seq_contains(m, "deepseek-v4"@) && !seq_contains(m, "reasoner"@) && !seq_contains(
            m,
            "-reasoning"@,
        ) && !seq_contains(m, "-thinking"@) && (forall|i: int|
            0 <= i && i + 10 < m.len() && #[trigger] m.subrange(i, i + 10) == "deepseek-r"@ ==> !(
            '0' <= m[i + 10] <= '9')) ==> !spec_infer_supports_reasoning(m),
{
    reveal_strlit("deepseek-r");
    assert forall|i: int|
        0 <= i && i + 10 < m.len() && #[trigger] m.subrange(i, i + 10) == "deepseek-r"@ && '0'
            <= m[i + 10] <= '9' implies spec_infer_supports_reasoning(m) by {
        assert(occurs_at(m, "deepseek-r"@, i));
        assert(is_digit(m[i + 10]));
    }
    if !spec_has_r_series_marker(m) {
    } else {
        let i = choose|i: int|
            occurs_at(m, "deepseek-r"@, i) && i + 10 < m.len() && is_digit(m[i + 10]);
        assert(m.subrange(i, i + 10) =~= "deepseek-r"@);
    }
}

/// The protocol defaults every record falls back to: all three protocols
/// stream and call tools; OpenAI-compatible has a 128,000-token window and a
/// 4,096-token output limit, Anthropic 200,000 and 8,192 with vision and no
/// reasoning, Gemini 1,000,000 and 8,192 with vision and embeddings.
pub proof fn law_protocol_defaults()
    ensures
        spec_protocol_defaults(ProtocolType::OpenaiCompatible).context_window == Some(128_000u32),
        spec_protocol_defaults(ProtocolType::OpenaiCompatible).max_output == Some(4_096u32),
        spec_protocol_defaults(ProtocolType::AnthropicMessages).context_window == Some(200_000u32),
        spec_protocol_defaults(ProtocolType::AnthropicMessages).max_output == Some(8_192u32),
        spec_protocol_defaults(ProtocolType::AnthropicMessages).supports_vision == Some(true),
        spec_protocol_defaults(ProtocolType::AnthropicMessages).supports_reasoning == Some(false),
        spec_protocol_defaults(ProtocolType::AnthropicMessages).thinking_supported == Some(false),
        spec_protocol_defaults(ProtocolType::GoogleGemini).context_window == Some(1_000_000u32),
        spec_protocol_defaults(ProtocolType::GoogleGemini).max_output == Some(8_192u32),
        spec_protocol_defaults(ProtocolType::GoogleGemini).supports_vision == Some(true),
        spec_protocol_defaults(ProtocolType::GoogleGemini).supports_embedding == Some(true),
        forall|p: ProtocolType|
            (#[trigger] spec_protocol_defaults(p)).supports_tools == Some(true)
                && spec_protocol_defaults(p).supports_streaming == Some(true),
{
}

/// Reasoning is required exactly when the record states thinking support or
/// reasoning support as `true`; it is replayed then unless the effort setting
/// switches it off.
pub proof fn law_requires_reasoning(caps: ModelCapabilities)
    ensures
        spec_requires_reasoning(caps) <==> (caps.thinking_supported == Some(true)
            || caps.supports_reasoning == Some(true)),
        is_effort_off("off"@) && is_effort_off("disabled"@) && is_effort_off("none"@)
            && is_effort_off("false"@),
{
    reveal_strlit("off");
    reveal_strlit("disabled");
    reveal_strlit("none");
    reveal_strlit("false");
    assert(trimmed("off"@) =~= "off"@);
    assert(trimmed("disabled"@) =~= "disabled"@);
    assert(trimmed("none"@) =~= "none"@);
    assert(trimmed("false"@) =~= "false"@);
    assert(ascii_lower("off"@) =~= "off"@);
    assert(ascii_lower("disabled"@) =~= "disabled"@);
    assert(ascii_lower("none"@) =~= "none"@);
    assert(ascii_lower("false"@) =~= "false"@);
}

/// The context window known from a model id alone (compared lower-cased): a
/// DeepSeek V4 model has 1,000,000 tokens, any other DeepSeek model 128,000,
/// and nothing is known of other models.
pub proof fn law_context_window_for_model(model: Seq<char>)
    ensures
        seq_contains(ascii_lower(model), "deepseek-v4"@) ==> spec_context_window_for_model(model)
            == Some(1_000_000u32),
        !seq_contains(ascii_lower(model), "deepseek-v4"@) && seq_contains(
            ascii_lower(model),
            "deepseek"@,
        ) ==> spec_context_window_for_model(model) == Some(128_000u32),
        !seq_contains(ascii_lower(model), "deepseek"@) ==> spec_context_window_for_model(model)
            is None,
{
    reveal_strlit("deepseek-v4");
    reveal_strlit("deepseek");
    let m = ascii_lower(model);
    if seq_contains(m, "deepseek-v4"@) {
        let i = choose|i: int| occurs_at(m, "deepseek-v4"@, i);
        assert(m.subrange(i, i + 8) =~= m.subrange(i, i + 11).subrange(0, 8));
        assert("deepseek-v4"@.subrange(0, 8) =~= "deepseek"@);
        assert(occurs_at(m, "deepseek"@, i));
    }
}

/// For a provider that consults the pattern table, a model id outside the
/// table is a V4 model when it names one (`v4-pro`, `v4-flash`, the bare V4 ids
/// or a deprecated alias): it thinks, has a 1,000,000-token window and a
/// 384,000-token limit; any other model does not think, has a 4,096-token limit
/// and the window known from its id.
pub proof fn law_builtin_unmatched(p: ApiProvider, model: Seq<char>)
    requires
        p != ApiProvider::Ollama,
        p != ApiProvider::Openai,
        spec_lookup_model_pattern(ascii_lower(model)) is None,
    ensures
        ({
            let m = ascii_lower(model);
            let v4 = seq_contains(m, "v4-pro"@) || seq_contains(m, "v4-flash"@) || m
                == "deepseek-v4pro"@ || m == "deepseek-v4flash"@ || m == "deepseek-v4"@ || m
                == "deepseek-chat"@ || m == "deepseek-reasoner"@;
            let o = spec_builtin_model_capabilities(p, model);
            &&& v4 ==> o.thinking_supported == Some(true) && o.context_window == Some(1_000_000u32)
                && o.max_output == Some(384_000u32)
            &&& !v4 ==> o.thinking_supported == Some(false) && o.max_output == Some(4_096u32)
                && o.context_window == spec_context_window_for_model(model)
            &&& o.supports_reasoning == Some(spec_infer_supports_reasoning(m))
            &&& o.supports_tools is None && o.supports_vision is None && o.supports_streaming is None
                && o.supports_embedding is None
        }),
{
}

/// The three tiers are merged field by field: a value the user states wins,
/// then a builtin value, then the protocol default.
pub proof fn law_resolve_tiers(user: ModelCapabilities, builtin: ModelCapabilities, protocol: ProtocolType)
    ensures
        spec_resolve_capabilities(Some(user), Some(builtin), protocol) == merge_caps(
            merge_caps(user, builtin),
            spec_protocol_defaults(protocol),
        ),
        spec_resolve_capabilities(None, None, protocol) == spec_protocol_defaults(protocol),
        spec_resolve_capabilities(Some(caps_none()), None, protocol) == spec_protocol_defaults(
            protocol,
        ),
{
    merge_caps_associative(user, builtin, spec_protocol_defaults(protocol));
    merge_caps_identity(spec_protocol_defaults(protocol));
}

/// Resolution, field by field: a capability the user states is used; failing
/// that, the builtin value; failing that, the protocol default.
pub proof fn law_resolve_fields(user: ModelCapabilities, builtin: ModelCapabilities, protocol: ProtocolType)
    ensures
        ({
            let r = spec_resolve_capabilities(Some(user), Some(builtin), protocol);
            let d = spec_protocol_defaults(protocol);
            &&& r.thinking_supported == (if user.thinking_supported is Some {
                user.thinking_supported
            } else if builtin.thinking_supported is Some {
                builtin.thinking_supported
            } else {
                d.thinking_supported
            })
            &&& r.supports_tools == (if user.supports_tools is Some {
                user.supports_tools
            } else if builtin.supports_tools is Some {
                builtin.supports_tools
            } else {
                d.supports_tools
            })
            &&& r.supports_reasoning == (if user.supports_reasoning is Some {
                user.supports_reasoning
            } else if builtin.supports_reasoning is Some {
                builtin.supports_reasoning
            } else {
                d.supports_reasoning
            })
            &&& r.supports_vision == (if user.supports_vision is Some {
                user.supports_vision
            } else if builtin.supports_vision is Some {
                builtin.supports_vision
            } else {
                d.supports_vision
            })
            &&& r.supports_streaming == (if user.supports_streaming is Some {
                user.supports_streaming
            } else if builtin.supports_streaming is Some {
                builtin.supports_streaming
            } else {
                d.supports_streaming
            })
            &&& r.supports_embedding == (if user.supports_embedding is Some {
                user.supports_embedding
            } else if builtin.supports_embedding is Some {
                builtin.supports_embedding
            } else {
                d.supports_embedding
            })
            &&& r.context_window == (if user.context_window is Some {
                user.context_window
            } else if builtin.context_window is Some {
                builtin.context_window
            } else {
                d.context_window
            })
            &&& r.max_output == (if user.max_output is Some {
                user.max_output
            } else if builtin.max_output is Some {
                builtin.max_output
            } else {
                d.max_output
            })
            &&& r.cache_telemetry_supported == (if user.cache_telemetry_supported is Some {
                user.cache_telemetry_supported
            } else if builtin.cache_telemetry_supported is Some {
                builtin.cache_telemetry_supported
            } else {
                d.cache_telemetry_supported
            })
        }),
{
}

/// Whatever the user and builtin tiers leave out, the resolved record states
/// tool support, streaming, the context window and the output limit.
pub proof fn law_resolve_complete(
    user: Option<ModelCapabilities>,
    builtin: Option<ModelCapabilities>,
    protocol: ProtocolType,
)
    ensures
        spec_resolve_capabilities(user, builtin, protocol).supports_tools is Some,
        spec_resolve_capabilities(user, builtin, protocol).supports_streaming is Some,
        spec_resolve_capabilities(user, builtin, protocol).context_window is Some,
        spec_resolve_capabilities(user, builtin, protocol).max_output is Some,
{
}


} // verus!
