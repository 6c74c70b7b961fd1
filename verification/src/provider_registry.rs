//! The registry of model providers: the builtin ones with their compile-time
//! defaults, user overrides of those, and user-defined providers.
use std::collections::HashMap;
use vstd::prelude::*;

use crate::capability_bridge::{spec_protocol_defaults, CapabilityBridge};
use crate::config::{ProtocolType, ProviderConfig, ProvidersConfig};
use crate::models::{caps_none, merge_caps, ModelCapabilities};
use crate::text::{
    chars_of, compare_chars, lemma_seq_lt_irreflexive, lemma_seq_lt_total,
    lemma_seq_lt_transitive, seq_lt, to_owned_string, Cmp,
};

verus! {

pub const DEEPSEEK_DEFAULT_BASE_URL: &'static str = "https://api.deepseek.com/beta";

pub const OPENAI_DEFAULT_BASE_URL: &'static str = "https://api.openai.com/v1";

pub const OPENROUTER_DEFAULT_BASE_URL: &'static str = "https://openrouter.ai/api/v1";

pub const NVIDIA_NIM_DEFAULT_BASE_URL: &'static str = "https://integrate.api.nvidia.com/v1";

pub const NOVITA_DEFAULT_BASE_URL: &'static str = "https://api.novita.ai/v3/openai";

pub const FIREWORKS_DEFAULT_BASE_URL: &'static str = "https://api.fireworks.ai/inference/v1";

pub const SGLANG_DEFAULT_BASE_URL: &'static str = "http://localhost:30000/v1";

pub const VLLM_DEFAULT_BASE_URL: &'static str = "http://localhost:8000/v1";

pub const OLLAMA_DEFAULT_BASE_URL: &'static str = "http://localhost:11434/v1";

pub open spec fn opt_seq(o: Option<String>) -> Option<Seq<char>> {
    match o {
        Some(s) => Some(s@),
        None => None,
    }
}

pub open spec fn opt_headers(o: Option<HashMap<String, String>>) -> Map<String, String> {
    match o {
        Some(h) => h@,
        None => Map::empty(),
    }
}

/// A provider as the user declares it.
#[derive(Clone, Debug)]
pub struct ProviderEntry {
    pub name: String,
    pub display_name: Option<String>,
    pub protocol: Option<ProtocolType>,
    pub base_url: Option<String>,
    pub api_key: Option<String>,
    pub default_model: Option<String>,
    pub http_headers: Option<HashMap<String, String>>,
    pub capabilities: Option<ModelCapabilities>,
    pub is_builtin: bool,
}

/// One `[providers.<name>]` table of the configuration file.
#[derive(Clone, Debug)]
pub struct ProviderTomlConfig {
    pub protocol: Option<String>,
    pub display_name: Option<String>,
    pub base_url: Option<String>,
    pub api_key: Option<String>,
    pub model: Option<String>,
    pub http_headers: Option<HashMap<String, String>>,
    pub capabilities: Option<ModelCapabilities>,
}

impl Default for ProviderTomlConfig {
    fn default() -> (r: Self)
        ensures
            r.protocol is None,
            r.display_name is None,
            r.base_url is None,
            r.api_key is None,
            r.model is None,
            r.http_headers is None,
            r.capabilities is None,
    {
        ProviderTomlConfig {
            protocol: None,
            display_name: None,
            base_url: None,
            api_key: None,
            model: None,
            http_headers: None,
            capabilities: None,
        }
    }
}

/// All `[providers.<name>]` tables, in the order in which they are applied.
#[derive(Clone, Debug)]
pub struct ProvidersToml {
    pub entries: Vec<(String, ProviderTomlConfig)>,
}

impl Default for ProvidersToml {
    fn default() -> (r: Self)
        ensures
            r.entries@.len() == 0,
    {
        ProvidersToml { entries: Vec::new() }
    }
}

/// A field of a builtin provider that the user has overridden.
#[derive(Clone, Copy, Debug, PartialEq, Eq, Hash, Structural)]
pub enum OverrideField {
    ApiKey,
    BaseUrl,
    DefaultModel,
    HttpHeaders,
    Capabilities,
}

/// A provider with every setting resolved.
#[derive(Clone, Debug)]
pub struct ResolvedProvider {
    pub name: String,
    pub display_name: String,
    pub protocol: ProtocolType,
    pub base_url: String,
    pub api_key: Option<String>,
    pub default_model: Option<String>,
    pub http_headers: HashMap<String, String>,
    pub capabilities: ModelCapabilities,
    pub is_builtin: bool,
    pub overridden_fields: Vec<OverrideField>,
}

/// The mathematical content of a resolved provider.
pub struct ProviderView {
    pub name: Seq<char>,
    pub display_name: Seq<char>,
    pub protocol: ProtocolType,
    pub base_url: Seq<char>,
    pub api_key: Option<Seq<char>>,
    pub default_model: Option<Seq<char>>,
    pub http_headers: Map<String, String>,
    pub capabilities: ModelCapabilities,
    pub is_builtin: bool,
    pub overridden_fields: Seq<OverrideField>,
}

impl View for ResolvedProvider {
    type V = ProviderView;

    open spec fn view(&self) -> ProviderView {
        ProviderView {
            name: self.name@,
            display_name: self.display_name@,
            protocol: self.protocol,
            base_url: self.base_url@,
            api_key: opt_seq(self.api_key),
            default_model: opt_seq(self.default_model),
            http_headers: self.http_headers@,
            capabilities: self.capabilities,
            is_builtin: self.is_builtin,
            overridden_fields: self.overridden_fields@,
        }
    }
}

/// Compile-time defaults of one builtin provider.
#[derive(Clone, Debug)]
pub struct BuiltinDefaults {
    pub protocol: ProtocolType,
    pub base_url: String,
    pub default_model: Option<String>,
    pub capabilities: ModelCapabilities,
    pub display_name: String,
}

pub struct BuiltinView {
    pub protocol: ProtocolType,
    pub base_url: Seq<char>,
    pub default_model: Option<Seq<char>>,
    pub capabilities: ModelCapabilities,
    pub display_name: Seq<char>,
}

impl View for BuiltinDefaults {
    type V = BuiltinView;

    open spec fn view(&self) -> BuiltinView {
        BuiltinView {
            protocol: self.protocol,
            base_url: self.base_url@,
            default_model: opt_seq(self.default_model),
            capabilities: self.capabilities,
            display_name: self.display_name@,
        }
    }
}

/// The names of the builtin providers, in table order.
pub open spec fn builtin_names_spec() -> Seq<Seq<char>> {
    seq![
        "deepseek"@,
        "deepseek-cn"@,
        "openai"@,
        "openrouter"@,
        "nvidia-nim"@,
        "novita"@,
        "fireworks"@,
        "sglang"@,
        "vllm"@,
        "ollama"@,
    ]
}

pub open spec fn deepseek_caps() -> ModelCapabilities {
    ModelCapabilities {
        thinking_supported: Some(true),
        supports_tools: Some(true),
        supports_reasoning: Some(true),
        supports_streaming: Some(true),
        context_window: Some(1_000_000),
        max_output: Some(384_000),
        cache_telemetry_supported: Some(true),
        ..caps_none()
    }
}

pub open spec fn openai_caps() -> ModelCapabilities {
    ModelCapabilities {
        supports_tools: Some(true),
        supports_streaming: Some(true),
        supports_vision: Some(true),
        context_window: Some(128_000),
        max_output: Some(16_384),
        ..caps_none()
    }
}

pub open spec fn nvidia_caps() -> ModelCapabilities {
    ModelCapabilities {
        thinking_supported: Some(true),
        supports_tools: Some(true),
        supports_streaming: Some(true),
        cache_telemetry_supported: Some(true),
        context_window: Some(1_000_000),
        max_output: Some(384_000),
        ..caps_none()
    }
}

/// Tools and streaming, with the given context window and 4 096 output tokens.
pub open spec fn generic_caps(context_window: u32) -> ModelCapabilities {
    ModelCapabilities {
        supports_tools: Some(true),
        supports_streaming: Some(true),
        context_window: Some(context_window),
        max_output: Some(4_096),
        ..caps_none()
    }
}

pub open spec fn bview(
    base_url: Seq<char>,
    default_model: Option<Seq<char>>,
    capabilities: ModelCapabilities,
    display_name: Seq<char>,
) -> BuiltinView {
    BuiltinView {
        protocol: ProtocolType::OpenaiCompatible,
        base_url,
        default_model,
        capabilities,
        display_name,
    }
}

/// The defaults of the `i`-th builtin provider of the table.
pub open spec fn builtin_view_at(i: int) -> BuiltinView {
    if i == 0 {
        bview(DEEPSEEK_DEFAULT_BASE_URL@, Some("deepseek-v4-pro"@), deepseek_caps(), "DeepSeek"@)
    } else if i == 1 {
        bview(
            DEEPSEEK_DEFAULT_BASE_URL@,
            Some("deepseek-v4-pro"@),
            deepseek_caps(),
            "DeepSeek (CN)"@,
        )
    } else if i == 2 {
        bview(OPENAI_DEFAULT_BASE_URL@, Some("gpt-4.1"@), openai_caps(), "OpenAI"@)
    } else if i == 3 {
        bview(
            OPENROUTER_DEFAULT_BASE_URL@,
            Some("deepseek/deepseek-v4-pro"@),
            generic_caps(128_000),
            "OpenRouter"@,
        )
    } else if i == 4 {
        bview(
            NVIDIA_NIM_DEFAULT_BASE_URL@,
            Some("deepseek-ai/deepseek-v4-pro"@),
            nvidia_caps(),
            "NVIDIA NIM"@,
        )
    } else if i == 5 {
        bview(
            NOVITA_DEFAULT_BASE_URL@,
            Some("deepseek/deepseek-v4-pro"@),
            generic_caps(128_000),
            "Novita"@,
        )
    } else if i == 6 {
        bview(
            FIREWORKS_DEFAULT_BASE_URL@,
            Some("accounts/fireworks/models/deepseek-v4-pro"@),
            generic_caps(128_000),
            "Fireworks"@,
        )
    } else if i == 7 {
        bview(SGLANG_DEFAULT_BASE_URL@, None, generic_caps(128_000), "SGLang"@)
    } else if i == 8 {
        bview(VLLM_DEFAULT_BASE_URL@, None, generic_caps(128_000), "vLLM"@)
    } else {
        bview(OLLAMA_DEFAULT_BASE_URL@, None, generic_caps(8_192), "Ollama"@)
    }
}

/// Whether `k` names a builtin provider.
pub open spec fn is_builtin_name(k: Seq<char>) -> bool {
    builtin_names_spec().contains(k)
}

/// The compile-time defaults of the builtin provider named `k`.
pub open spec fn builtin_spec(k: Seq<char>) -> BuiltinView
    recommends
        is_builtin_name(k),
{
    builtin_view_at(builtin_names_spec().index_of(k))
}

/// The names of the builtin providers are pairwise distinct.
pub proof fn lemma_builtin_names_distinct()
    ensures
        forall|i: int, j: int|
            0 <= i < 10 && 0 <= j < 10 && i != j ==> builtin_names_spec()[i]
                != builtin_names_spec()[j],
        builtin_names_spec().len() == 10,
        builtin_names_spec().no_duplicates(),
{
    reveal_strlit("deepseek");
    reveal_strlit("deepseek-cn");
    reveal_strlit("openai");
    reveal_strlit("openrouter");
    reveal_strlit("nvidia-nim");
    reveal_strlit("novita");
    reveal_strlit("fireworks");
    reveal_strlit("sglang");
    reveal_strlit("vllm");
    reveal_strlit("ollama");
    let s = builtin_names_spec();
    let sig = |x: Seq<char>| (x.len(), x[0], x[1]);
    assert(sig(s[0]) == (8nat, 'd', 'e'));
    assert(sig(s[1]) == (11nat, 'd', 'e'));
    assert(sig(s[2]) == (6nat, 'o', 'p'));
    assert(sig(s[3]) == (10nat, 'o', 'p'));
    assert(sig(s[4]) == (10nat, 'n', 'v'));
    assert(sig(s[5]) == (6nat, 'n', 'o'));
    assert(sig(s[6]) == (9nat, 'f', 'i'));
    assert(sig(s[7]) == (6nat, 's', 'g'));
    assert(sig(s[8]) == (4nat, 'v', 'l'));
    assert(sig(s[9]) == (6nat, 'o', 'l'));
    assert forall|i: int, j: int| 0 <= i < 10 && 0 <= j < 10 && i != j implies s[i] != s[j] by {
        assert(sig(s[i]) != sig(s[j]));
    }
}

/// The builtin provider at index `i` of the table has the defaults at index `i`.
pub proof fn lemma_builtin_spec_at(i: int)
    requires
        0 <= i < 10,
    ensures
        is_builtin_name(builtin_names_spec()[i]),
        builtin_spec(builtin_names_spec()[i]) == builtin_view_at(i),
{
    lemma_builtin_names_distinct();
    let s = builtin_names_spec();
    assert(s.contains(s[i]));
    s.index_of_first(s[i]);
    let j = s.index_of(s[i]);
    assert(0 <= j < 10 && s[j] == s[i]);
}


/// A provider resolved from the compile-time defaults alone.
pub open spec fn default_view(name: Seq<char>, bd: BuiltinView) -> ProviderView {
    ProviderView {
        name,
        display_name: bd.display_name,
        protocol: bd.protocol,
        base_url: bd.base_url,
        api_key: None,
        default_model: bd.default_model,
        http_headers: Map::empty(),
        capabilities: bd.capabilities,
        is_builtin: true,
        overridden_fields: Seq::empty(),
    }
}

pub fn clone_opt_string(o: &Option<String>) -> (r: Option<String>)
    ensures
        opt_seq(r) == opt_seq(*o),
{
    match o {
        Some(s) => Some(s.clone()),
        None => None,
    }
}

fn opt_str_to_string(o: Option<&str>) -> (r: Option<String>)
    ensures
        opt_seq(r) == match o {
            Some(s) => Some(s@),
            None => None::<Seq<char>>,
        },
{
    match o {
        Some(s) => Some(s.to_owned()),
        None => None,
    }
}

fn builtin(
    base_url: &str,
    default_model: Option<&str>,
    capabilities: ModelCapabilities,
    display_name: &str,
) -> (r: BuiltinDefaults)
    ensures
        r@ == bview(
            base_url@,
            match default_model {
                Some(m) => Some(m@),
                None => None,
            },
            capabilities,
            display_name@,
        ),
{
    BuiltinDefaults {
        protocol: ProtocolType::OpenaiCompatible,
        base_url: base_url.to_owned(),
        default_model: opt_str_to_string(default_model),
        capabilities,
        display_name: display_name.to_owned(),
    }
}

fn generic_caps_exec(context_window: u32) -> (r: ModelCapabilities)
    ensures
        r == generic_caps(context_window),
{
    ModelCapabilities {
        supports_tools: Some(true),
        supports_streaming: Some(true),
        context_window: Some(context_window),
        max_output: Some(4_096),
        ..ModelCapabilities::default()
    }
}

/// The compile-time defaults of all builtin providers.
pub struct CompileTimeDefaults {
    defaults: Vec<(String, BuiltinDefaults)>,
}

impl CompileTimeDefaults {
    /// Holds exactly the builtin table, in table order.
    pub closed spec fn wf(&self) -> bool {
        &&& self.defaults@.len() == 10
        &&& forall|i: int|
            0 <= i < 10 ==> (#[trigger] self.defaults@[i]).0@ == builtin_names_spec()[i]
                && self.defaults@[i].1@ == builtin_view_at(i)
    }

    fn new() -> (r: Self)
        ensures
            r.wf(),
    {
        let deepseek_caps = ModelCapabilities {
            thinking_supported: Some(true),
            supports_tools: Some(true),
            supports_reasoning: Some(true),
            supports_streaming: Some(true),
            context_window: Some(1_000_000),
            max_output: Some(384_000),
            cache_telemetry_supported: Some(true),
            ..ModelCapabilities::default()
        };
        let openai_caps = ModelCapabilities {
            supports_tools: Some(true),
            supports_streaming: Some(true),
            supports_vision: Some(true),
            context_window: Some(128_000),
            max_output: Some(16_384),
            ..ModelCapabilities::default()
        };
        let nvidia_caps = ModelCapabilities {
            thinking_supported: Some(true),
            supports_tools: Some(true),
            supports_streaming: Some(true),
            cache_telemetry_supported: Some(true),
            context_window: Some(1_000_000),
            max_output: Some(384_000),
            ..ModelCapabilities::default()
        };
        let mut defaults: Vec<(String, BuiltinDefaults)> = Vec::new();
        defaults.push(
            (
                "deepseek".to_owned(),
                builtin(DEEPSEEK_DEFAULT_BASE_URL, Some("deepseek-v4-pro"), deepseek_caps, "DeepSeek"),
            ),
        );
        defaults.push(
            (
                "deepseek-cn".to_owned(),
                builtin(
                    DEEPSEEK_DEFAULT_BASE_URL,
                    Some("deepseek-v4-pro"),
                    deepseek_caps,
                    "DeepSeek (CN)",
                ),
            ),
        );
        defaults.push(
            (
                "openai".to_owned(),
                builtin(OPENAI_DEFAULT_BASE_URL, Some("gpt-4.1"), openai_caps, "OpenAI"),
            ),
        );
        defaults.push(
            (
                "openrouter".to_owned(),
                builtin(
                    OPENROUTER_DEFAULT_BASE_URL,
                    Some("deepseek/deepseek-v4-pro"),
                    generic_caps_exec(128_000),
                    "OpenRouter",
                ),
            ),
        );
        defaults.push(
            (
                "nvidia-nim".to_owned(),
                builtin(
                    NVIDIA_NIM_DEFAULT_BASE_URL,
                    Some("deepseek-ai/deepseek-v4-pro"),
                    nvidia_caps,
                    "NVIDIA NIM",
                ),
            ),
        );
        defaults.push(
            (
                "novita".to_owned(),
                builtin(
                    NOVITA_DEFAULT_BASE_URL,
                    Some("deepseek/deepseek-v4-pro"),
                    generic_caps_exec(128_000),
                    "Novita",
                ),
            ),
        );
        defaults.push(
            (
                "fireworks".to_owned(),
                builtin(
                    FIREWORKS_DEFAULT_BASE_URL,
                    Some("accounts/fireworks/models/deepseek-v4-pro"),
                    generic_caps_exec(128_000),
                    "Fireworks",
                ),
            ),
        );
        defaults.push(
            (
                "sglang".to_owned(),
                builtin(SGLANG_DEFAULT_BASE_URL, None, generic_caps_exec(128_000), "SGLang"),
            ),
        );
        defaults.push(
            (
                "vllm".to_owned(),
                builtin(VLLM_DEFAULT_BASE_URL, None, generic_caps_exec(128_000), "vLLM"),
            ),
        );
        defaults.push(
            (
                "ollama".to_owned(),
                builtin(OLLAMA_DEFAULT_BASE_URL, None, generic_caps_exec(8_192), "Ollama"),
            ),
        );
        let r = CompileTimeDefaults { defaults };
        assert forall|i: int| 0 <= i < 10 implies (#[trigger] r.defaults@[i]).0@
            == builtin_names_spec()[i] && r.defaults@[i].1@ == builtin_view_at(i) by {}
        r
    }

    /// The defaults of the builtin provider with the given name.
    fn get(&self, name: &str) -> (r: Option<&BuiltinDefaults>)
        requires
            self.wf(),
        ensures
            match r {
                Some(b) => is_builtin_name(name@) && b@ == builtin_spec(name@),
                None => !is_builtin_name(name@),
            },
    {
        let mut i: usize = 0;
        while i < self.defaults.len()
            invariant
                self.wf(),
                i <= 10,
                forall|k: int| 0 <= k < i ==> builtin_names_spec()[k] != name@,
            decreases 10 - i,
        {
            if crate::text::str_eq(self.defaults[i].0.as_str(), name) {
                proof {
                    lemma_builtin_spec_at(i as int);
                }
                return Some(&self.defaults[i].1);
            }
            i = i + 1;
        }
        proof {
            if is_builtin_name(name@) {
                let j = builtin_names_spec().index_of(name@);
                builtin_names_spec().index_of_first(name@);
                assert(builtin_names_spec()[j] == name@);
            }
        }
        None
    }

    /// The names of all builtin providers, in table order.
    fn all_names(&self) -> (r: Vec<&str>)
        requires
            self.wf(),
        ensures
            r@.len() == 10,
            forall|i: int| 0 <= i < 10 ==> (#[trigger] r@[i])@ == builtin_names_spec()[i],
    {
        let mut r: Vec<&str> = Vec::new();
        let mut i: usize = 0;
        while i < self.defaults.len()
            invariant
                self.wf(),
                i <= 10,
                r@.len() == i,
                forall|k: int| 0 <= k < i ==> (#[trigger] r@[k])@ == builtin_names_spec()[k],
            decreases 10 - i,
        {
            r.push(self.defaults[i].0.as_str());
            i = i + 1;
        }
        r
    }
}

/// Names strictly increase along the sequence.
pub open spec fn sorted_names(s: Seq<ResolvedProvider>) -> bool {
    forall|i: int, j: int| 0 <= i < j < s.len() ==> seq_lt(#[trigger] s[i].name@, #[trigger] s[j].name@)
}

pub open spec fn has_name(s: Seq<ResolvedProvider>, k: Seq<char>) -> bool {
    exists|i: int| 0 <= i < s.len() && (#[trigger] s[i]).name@ == k
}

pub open spec fn index_of_name(s: Seq<ResolvedProvider>, k: Seq<char>) -> int {
    choose|i: int| 0 <= i < s.len() && (#[trigger] s[i]).name@ == k
}

/// The providers of a sequence, by name.
pub open spec fn provider_map(s: Seq<ResolvedProvider>) -> Map<Seq<char>, ProviderView> {
    Map::new(|k: Seq<char>| has_name(s, k), |k: Seq<char>| s[index_of_name(s, k)]@)
}

proof fn lemma_sorted_unique(s: Seq<ResolvedProvider>, i: int, j: int)
    requires
        sorted_names(s),
        0 <= i < s.len(),
        0 <= j < s.len(),
        s[i].name@ == s[j].name@,
    ensures
        i == j,
{
    if i < j {
        assert(seq_lt(s[i].name@, s[j].name@));
        lemma_seq_lt_irreflexive(s[i].name@);
    } else if j < i {
        assert(seq_lt(s[j].name@, s[i].name@));
        lemma_seq_lt_irreflexive(s[i].name@);
    }
}

proof fn lemma_map_at(s: Seq<ResolvedProvider>, i: int)
    requires
        sorted_names(s),
        0 <= i < s.len(),
    ensures
        provider_map(s).contains_key(s[i].name@),
        provider_map(s)[s[i].name@] == s[i]@,
{
    let k = s[i].name@;
    assert(has_name(s, k));
    let j = index_of_name(s, k);
    lemma_sorted_unique(s, i, j);
}

/// Every key of the map is the name of the provider stored under it.
proof fn lemma_map_keys(s: Seq<ResolvedProvider>)
    ensures
        forall|k: Seq<char>|
            #[trigger] provider_map(s).contains_key(k) ==> provider_map(s)[k].name == k,
{
    assert forall|k: Seq<char>| #[trigger] provider_map(s).contains_key(k) implies provider_map(
        s,
    )[k].name == k by {
        let j = index_of_name(s, k);
    }
}

proof fn lemma_map_insert(s: Seq<ResolvedProvider>, j: int, p: ResolvedProvider)
    requires
        sorted_names(s),
        0 <= j <= s.len(),
        forall|i: int| 0 <= i < j ==> seq_lt(#[trigger] s[i].name@, p.name@),
        forall|i: int| j <= i < s.len() ==> seq_lt(p.name@, #[trigger] s[i].name@),
    ensures
        sorted_names(s.insert(j, p)),
        provider_map(s.insert(j, p)) == provider_map(s).insert(p.name@, p@),
{
    let t = s.insert(j, p);
    assert forall|a: int, b: int| 0 <= a < b < t.len() implies seq_lt(
        #[trigger] t[a].name@,
        #[trigger] t[b].name@,
    ) by {
        if b < j {
        } else if b == j {
        } else if a < j {
            assert(seq_lt(s[a].name@, p.name@));
            assert(seq_lt(p.name@, s[b - 1].name@));
            lemma_seq_lt_transitive(s[a].name@, p.name@, s[b - 1].name@);
        } else if a == j {
        } else {
            assert(t[a] == s[a - 1]);
            assert(t[b] == s[b - 1]);
        }
    }
    let m1 = provider_map(t);
    let m2 = provider_map(s).insert(p.name@, p@);
    assert forall|k: Seq<char>| #[trigger] m1.contains_key(k) <==> m2.contains_key(k) by {
        if m1.contains_key(k) {
            let i = index_of_name(t, k);
            if i < j {
                assert(t[i] == s[i]);
                assert(has_name(s, k));
            } else if i > j {
                assert(t[i] == s[i - 1]);
                assert(has_name(s, k));
            }
        }
        if m2.contains_key(k) {
            if k == p.name@ {
                assert(t[j] == p);
                assert(has_name(t, k));
            } else {
                let i = index_of_name(s, k);
                if i < j {
                    assert(t[i] == s[i]);
                } else {
                    assert(t[i + 1] == s[i]);
                }
                assert(has_name(t, k));
            }
        }
    }
    assert forall|k: Seq<char>| #[trigger] m1.contains_key(k) implies m1[k] == m2[k] by {
        if k == p.name@ {
            assert(t[j] == p);
            lemma_map_at(t, j);
        } else {
            let i = index_of_name(s, k);
            lemma_map_at(s, i);
            if i < j {
                assert(t[i] == s[i]);
                lemma_map_at(t, i);
            } else {
                assert(t[i + 1] == s[i]);
                lemma_map_at(t, i + 1);
            }
        }
    }
    assert(m1 =~= m2);
}

proof fn lemma_map_remove(s: Seq<ResolvedProvider>, j: int)
    requires
        sorted_names(s),
        0 <= j < s.len(),
    ensures
        sorted_names(s.remove(j)),
        provider_map(s.remove(j)) == provider_map(s).remove(s[j].name@),
{
    let t = s.remove(j);
    assert forall|a: int, b: int| 0 <= a < b < t.len() implies seq_lt(
        #[trigger] t[a].name@,
        #[trigger] t[b].name@,
    ) by {
        if a < j && b >= j {
            assert(t[b] == s[b + 1]);
        } else if a >= j {
            assert(t[a] == s[a + 1]);
            assert(t[b] == s[b + 1]);
        }
    }
    let m1 = provider_map(t);
    let m2 = provider_map(s).remove(s[j].name@);
    assert forall|k: Seq<char>| #[trigger] m1.contains_key(k) <==> m2.contains_key(k) by {
        if m1.contains_key(k) {
            let i = index_of_name(t, k);
            if i < j {
                assert(t[i] == s[i]);
                assert(has_name(s, k));
                if k == s[j].name@ {
                    lemma_sorted_unique(s, i, j);
                }
            } else {
                assert(t[i] == s[i + 1]);
                assert(has_name(s, k));
                if k == s[j].name@ {
                    lemma_sorted_unique(s, i + 1, j);
                }
            }
        }
        if m2.contains_key(k) {
            let i = index_of_name(s, k);
            if i < j {
                assert(t[i] == s[i]);
            } else if i > j {
                assert(t[i - 1] == s[i]);
            }
            assert(has_name(t, k));
        }
    }
    assert forall|k: Seq<char>| #[trigger] m1.contains_key(k) implies m1[k] == m2[k] by {
        let i = index_of_name(s, k);
        lemma_map_at(s, i);
        if i < j {
            assert(t[i] == s[i]);
            lemma_map_at(t, i);
        } else if i > j {
            assert(t[i - 1] == s[i]);
            lemma_map_at(t, i - 1);
        }
    }
    assert(m1 =~= m2);
}

proof fn lemma_map_update(s: Seq<ResolvedProvider>, j: int, q: ResolvedProvider)
    requires
        sorted_names(s),
        0 <= j < s.len(),
        q.name@ == s[j].name@,
    ensures
        sorted_names(s.update(j, q)),
        provider_map(s.update(j, q)) == provider_map(s).insert(q.name@, q@),
{
    let t = s.update(j, q);
    assert forall|a: int, b: int| 0 <= a < b < t.len() implies seq_lt(
        #[trigger] t[a].name@,
        #[trigger] t[b].name@,
    ) by {
        assert(t[a].name@ == s[a].name@);
        assert(t[b].name@ == s[b].name@);
    }
    let m1 = provider_map(t);
    let m2 = provider_map(s).insert(q.name@, q@);
    assert forall|k: Seq<char>| #[trigger] m1.contains_key(k) <==> m2.contains_key(k) by {
        if m1.contains_key(k) {
            let i = index_of_name(t, k);
            assert(t[i].name@ == s[i].name@);
            assert(has_name(s, k));
        }
        if m2.contains_key(k) {
            if k == q.name@ {
                assert(t[j] == q);
            } else {
                let i = index_of_name(s, k);
                assert(t[i].name@ == s[i].name@);
            }
            assert(has_name(t, k));
        }
    }
    assert forall|k: Seq<char>| #[trigger] m1.contains_key(k) implies m1[k] == m2[k] by {
        if k == q.name@ {
            lemma_map_at(t, j);
        } else {
            let i = index_of_name(s, k);
            lemma_map_at(s, i);
            assert(t[i] == s[i]);
            lemma_map_at(t, i);
        }
    }
    assert(m1 =~= m2);
}

/// The index of the provider with the given name, if any.
fn find_index(providers: &Vec<ResolvedProvider>, name: &Vec<char>) -> (r: Option<usize>)
    ensures
        match r {
            Some(i) => i < providers@.len() && providers@[i as int].name@ == name@,
            None => !has_name(providers@, name@),
        },
{
    let mut i: usize = 0;
    while i < providers.len()
        invariant
            i <= providers@.len(),
            forall|k: int| 0 <= k < i ==> (#[trigger] providers@[k]).name@ != name@,
        decreases providers@.len() - i,
    {
        let n = chars_of(providers[i].name.as_str());
        if crate::text::vec_eq(&n, name) {
            return Some(i);
        }
        i = i + 1;
    }
    None
}

/// The position at which a provider with a new name keeps the names sorted.
fn insert_position(providers: &Vec<ResolvedProvider>, name: &Vec<char>) -> (r: usize)
    requires
        sorted_names(providers@),
        !has_name(providers@, name@),
    ensures
        r <= providers@.len(),
        forall|i: int| 0 <= i < r ==> seq_lt(#[trigger] providers@[i].name@, name@),
        forall|i: int| r <= i < providers@.len() ==> seq_lt(name@, #[trigger] providers@[i].name@),
{
    let mut i: usize = 0;
    while i < providers.len()
        invariant
            i <= providers@.len(),
            sorted_names(providers@),
            !has_name(providers@, name@),
            forall|k: int| 0 <= k < i ==> seq_lt(#[trigger] providers@[k].name@, name@),
        decreases providers@.len() - i,
    {
        let n = chars_of(providers[i].name.as_str());
        match compare_chars(&n, name) {
            Cmp::Less => {},
            _ => {
                proof {
                    lemma_seq_lt_total(providers@[i as int].name@, name@);
                    assert(providers@[i as int].name@ != name@);
                    assert forall|k: int| i <= k < providers@.len() implies seq_lt(
                        name@,
                        #[trigger] providers@[k].name@,
                    ) by {
                        if k > i {
                            assert(seq_lt(providers@[i as int].name@, providers@[k].name@));
                            lemma_seq_lt_transitive(
                                name@,
                                providers@[i as int].name@,
                                providers@[k].name@,
                            );
                        }
                    }
                }
                return i;
            },
        }
        i = i + 1;
    }
    i
}

/// Adds a provider whose name is not present yet, keeping the names sorted.
fn insert_sorted(providers: &mut Vec<ResolvedProvider>, p: ResolvedProvider)
    requires
        sorted_names(old(providers)@),
        !has_name(old(providers)@, p.name@),
    ensures
        sorted_names(final(providers)@),
        provider_map(final(providers)@) == provider_map(old(providers)@).insert(p.name@, p@),
{
    let n = chars_of(p.name.as_str());
    let j = insert_position(providers, &n);
    proof {
        lemma_map_insert(providers@, j as int, p);
    }
    providers.insert(j, p);
}


/// What went wrong in a registry operation.
#[derive(Clone, Copy, Debug, PartialEq, Eq, Structural)]
pub enum RegistryErrorKind {
    AlreadyExists,
    InvalidName,
    MissingProtocol,
    MissingBaseUrl,
    NotFound,
    NotBuiltin,
    BuiltinProtocolConflict,
    UnknownProtocol,
    CustomMissingBaseUrl,
}

/// A failed registry operation: its kind, the provider name it concerns and,
/// for an unknown protocol, the protocol string that was given.
#[derive(Clone, Debug)]
pub struct RegistryError {
    pub kind: RegistryErrorKind,
    pub name: String,
    pub protocol: String,
}

pub struct ErrorView {
    pub kind: RegistryErrorKind,
    pub name: Seq<char>,
    pub protocol: Seq<char>,
}

impl View for RegistryError {
    type V = ErrorView;

    open spec fn view(&self) -> ErrorView {
        ErrorView { kind: self.kind, name: self.name@, protocol: self.protocol@ }
    }
}

pub open spec fn err_view(kind: RegistryErrorKind, name: Seq<char>) -> ErrorView {
    ErrorView { kind, name, protocol: Seq::empty() }
}

/// The text before the provider name in the message of an error of this kind.
pub open spec fn message_prefix(kind: RegistryErrorKind) -> Seq<char> {
    match kind {
        RegistryErrorKind::AlreadyExists => "provider '"@,
        RegistryErrorKind::InvalidName => "invalid provider name '"@,
        RegistryErrorKind::MissingProtocol => "user-defined provider '"@,
        RegistryErrorKind::MissingBaseUrl => "user-defined provider '"@,
        RegistryErrorKind::NotFound => "provider '"@,
        RegistryErrorKind::NotBuiltin => "'"@,
        RegistryErrorKind::BuiltinProtocolConflict => "provider '"@,
        RegistryErrorKind::UnknownProtocol => "custom provider '"@,
        RegistryErrorKind::CustomMissingBaseUrl => "custom provider '"@,
    }
}

/// The text after the provider name in the message of an error of this kind.
pub open spec fn message_suffix(kind: RegistryErrorKind) -> Seq<char> {
    match kind {
        RegistryErrorKind::AlreadyExists => "' already exists"@,
        RegistryErrorKind::InvalidName => "': must be 1-63 chars, lowercase letters/digits/hyphens, start with a letter"@,
        RegistryErrorKind::MissingProtocol => "' must specify a protocol"@,
        RegistryErrorKind::MissingBaseUrl => "' must specify a base_url"@,
        RegistryErrorKind::NotFound => "' not found"@,
        RegistryErrorKind::NotBuiltin => "' is not a builtin provider; use register() for user-defined providers"@,
        RegistryErrorKind::BuiltinProtocolConflict => "' conflicts with builtin: cannot specify 'protocol' field when overriding a builtin provider (remove the 'protocol' field to override config only)"@,
        RegistryErrorKind::UnknownProtocol => "': unknown protocol '"@,
        RegistryErrorKind::CustomMissingBaseUrl => "': missing required 'base_url'"@,
    }
}

pub open spec fn spec_message(e: ErrorView) -> Seq<char> {
    let base = message_prefix(e.kind) + e.name + message_suffix(e.kind);
    if e.kind == RegistryErrorKind::UnknownProtocol {
        base + e.protocol + "'"@
    } else {
        base
    }
}

fn prefix_str(kind: RegistryErrorKind) -> (r: &'static str)
    ensures
        r@ == message_prefix(kind),
{
    match kind {
        RegistryErrorKind::AlreadyExists => "provider '",
        RegistryErrorKind::InvalidName => "invalid provider name '",
        RegistryErrorKind::MissingProtocol => "user-defined provider '",
        RegistryErrorKind::MissingBaseUrl => "user-defined provider '",
        RegistryErrorKind::NotFound => "provider '",
        RegistryErrorKind::NotBuiltin => "'",
        RegistryErrorKind::BuiltinProtocolConflict => "provider '",
        RegistryErrorKind::UnknownProtocol => "custom provider '",
        RegistryErrorKind::CustomMissingBaseUrl => "custom provider '",
    }
}

fn suffix_str(kind: RegistryErrorKind) -> (r: &'static str)
    ensures
        r@ == message_suffix(kind),
{
    match kind {
        RegistryErrorKind::AlreadyExists => "' already exists",
        RegistryErrorKind::InvalidName => "': must be 1-63 chars, lowercase letters/digits/hyphens, start with a letter",
        RegistryErrorKind::MissingProtocol => "' must specify a protocol",
        RegistryErrorKind::MissingBaseUrl => "' must specify a base_url",
        RegistryErrorKind::NotFound => "' not found",
        RegistryErrorKind::NotBuiltin => "' is not a builtin provider; use register() for user-defined providers",
        RegistryErrorKind::BuiltinProtocolConflict => "' conflicts with builtin: cannot specify 'protocol' field when overriding a builtin provider (remove the 'protocol' field to override config only)",
        RegistryErrorKind::UnknownProtocol => "': unknown protocol '",
        RegistryErrorKind::CustomMissingBaseUrl => "': missing required 'base_url'",
    }
}

impl RegistryError {
    fn new(kind: RegistryErrorKind, name: &str) -> (r: RegistryError)
        ensures
            r@ == err_view(kind, name@),
    {
        RegistryError { kind, name: name.to_owned(), protocol: String::new() }
    }

    /// The human-readable text of this error.
    pub fn message(&self) -> (r: String)
        ensures
            r@ == spec_message(self@),
    {
        let mut out = String::new();
        crate::text::append_str(&mut out, prefix_str(self.kind));
        crate::text::append_str(&mut out, self.name.as_str());
        crate::text::append_str(&mut out, suffix_str(self.kind));
        if self.kind == RegistryErrorKind::UnknownProtocol {
            crate::text::append_str(&mut out, self.protocol.as_str());
            crate::text::append_str(&mut out, "'");
        }
        assert(out@ =~= spec_message(self@));
        out
    }
}


/// What `unregister` did.
#[derive(Clone, Copy, Debug, PartialEq, Eq, Structural)]
pub enum UnregisterOutcome {
    Removed,
    ClearedOverride,
    CannotRemoveBuiltin,
}

/// A capability setting value.
#[derive(Clone, Copy, Debug, PartialEq, Eq, Structural)]
pub enum CapValue {
    Bool(bool),
    U32(u32),
}

/// The builtin providers with nothing overridden.
pub open spec fn builtin_map() -> Map<Seq<char>, ProviderView> {
    Map::new(|k: Seq<char>| is_builtin_name(k), |k: Seq<char>| default_view(k, builtin_spec(k)))
}

pub open spec fn is_ascii_alpha(c: char) -> bool {
    ('a' <= c && c <= 'z') || ('A' <= c && c <= 'Z')
}

/// Characters allowed in a provider name.
pub open spec fn is_name_char(c: char) -> bool {
    ('a' <= c && c <= 'z') || ('0' <= c && c <= '9') || c == '-'
}

/// 1 to 63 characters, starting with a letter, made of lowercase letters,
/// digits and hyphens, and without `..`, `/` or `\`.
pub open spec fn spec_name_valid(n: Seq<char>) -> bool {
    &&& 1 <= n.len() <= 63
    &&& is_ascii_alpha(n[0])
    &&& forall|i: int| 0 <= i < n.len() ==> is_name_char(#[trigger] n[i])
    &&& !crate::text::seq_contains(n, ".."@)
    &&& !crate::text::seq_contains(n, "/"@)
    &&& !crate::text::seq_contains(n, "\\"@)
}

pub open spec fn opt_map(o: Option<HashMap<String, String>>) -> Option<Map<String, String>> {
    match o {
        Some(h) => Some(h@),
        None => None,
    }
}

/// The provider that a successful `register` stores for `e`.
pub open spec fn entry_view(e: ProviderEntry) -> ProviderView {
    let protocol = match e.protocol {
        Some(p) => p,
        None => ProtocolType::OpenaiCompatible,
    };
    ProviderView {
        name: e.name@,
        display_name: match e.display_name {
            Some(d) => d@,
            None => e.name@,
        },
        protocol,
        base_url: match e.base_url {
            Some(u) => u@,
            None => Seq::empty(),
        },
        api_key: opt_seq(e.api_key),
        default_model: opt_seq(e.default_model),
        http_headers: opt_headers(e.http_headers),
        capabilities: match e.capabilities {
            Some(c) => merge_caps(c, spec_protocol_defaults(protocol)),
            None => spec_protocol_defaults(protocol),
        },
        is_builtin: false,
        overridden_fields: Seq::empty(),
    }
}

/// The first reason, if any, for which `register` refuses `e` in a registry holding `m`.
pub open spec fn register_error(m: Map<Seq<char>, ProviderView>, e: ProviderEntry) -> Option<
    ErrorView,
> {
    if m.contains_key(e.name@) {
        Some(err_view(RegistryErrorKind::AlreadyExists, e.name@))
    } else if !spec_name_valid(e.name@) {
        Some(err_view(RegistryErrorKind::InvalidName, e.name@))
    } else if e.protocol is None {
        Some(err_view(RegistryErrorKind::MissingProtocol, e.name@))
    } else if e.base_url is None {
        Some(err_view(RegistryErrorKind::MissingBaseUrl, e.name@))
    } else {
        None
    }
}

/// The fields named by an override, in the order api key, base URL, model,
/// headers, capabilities.
pub open spec fn override_fields(
    api_key: bool,
    base_url: bool,
    model: bool,
    http_headers: bool,
    capabilities: bool,
) -> Seq<OverrideField> {
    (if api_key { seq![OverrideField::ApiKey] } else { Seq::empty() })
        + (if base_url { seq![OverrideField::BaseUrl] } else { Seq::empty() })
        + (if model { seq![OverrideField::DefaultModel] } else { Seq::empty() })
        + (if http_headers { seq![OverrideField::HttpHeaders] } else { Seq::empty() })
        + (if capabilities { seq![OverrideField::Capabilities] } else { Seq::empty() })
}

/// Provider `p` with the given settings overriding its own; capabilities are
/// merged over the current ones; the override record lists exactly these settings.
pub open spec fn override_view(
    p: ProviderView,
    api_key: Option<Seq<char>>,
    base_url: Option<Seq<char>>,
    model: Option<Seq<char>>,
    http_headers: Option<Map<String, String>>,
    capabilities: Option<ModelCapabilities>,
) -> ProviderView {
    ProviderView {
        api_key: if api_key is Some { api_key } else { p.api_key },
        base_url: match base_url {
            Some(u) => u,
            None => p.base_url,
        },
        default_model: if model is Some { model } else { p.default_model },
        http_headers: match http_headers {
            Some(h) => h,
            None => p.http_headers,
        },
        capabilities: match capabilities {
            Some(c) => merge_caps(c, p.capabilities),
            None => p.capabilities,
        },
        overridden_fields: override_fields(
            api_key is Some,
            base_url is Some,
            model is Some,
            http_headers is Some,
            capabilities is Some,
        ),
        ..p
    }
}

/// One `[providers.<builtin>]` table applied to the registry contents `m`:
/// nothing happens unless it sets a key, a base URL or a model.
pub open spec fn apply_provider_config(
    m: Map<Seq<char>, ProviderView>,
    name: Seq<char>,
    pc: ProviderConfig,
) -> Map<Seq<char>, ProviderView> {
    if pc.api_key is None && pc.base_url is None && pc.model is None {
        m
    } else {
        m.insert(
            name,
            override_view(
                m[name],
                opt_seq(pc.api_key),
                opt_seq(pc.base_url),
                opt_seq(pc.model),
                opt_map(pc.http_headers),
                None,
            ),
        )
    }
}

/// All builtin tables applied, in the order deepseek, deepseek-cn, nvidia-nim,
/// openai, openrouter, novita, fireworks, sglang, vllm, ollama.
pub open spec fn spec_load_providers_config(
    m: Map<Seq<char>, ProviderView>,
    c: ProvidersConfig,
) -> Map<Seq<char>, ProviderView> {
    let m = apply_provider_config(m, "deepseek"@, c.deepseek);
    let m = apply_provider_config(m, "deepseek-cn"@, c.deepseek_cn);
    let m = apply_provider_config(m, "nvidia-nim"@, c.nvidia_nim);
    let m = apply_provider_config(m, "openai"@, c.openai);
    let m = apply_provider_config(m, "openrouter"@, c.openrouter);
    let m = apply_provider_config(m, "novita"@, c.novita);
    let m = apply_provider_config(m, "fireworks"@, c.fireworks);
    let m = apply_provider_config(m, "sglang"@, c.sglang);
    let m = apply_provider_config(m, "vllm"@, c.vllm);
    apply_provider_config(m, "ollama"@, c.ollama)
}

/// The protocol named by a configuration string.
pub open spec fn parse_protocol(s: Seq<char>) -> Option<ProtocolType> {
    if s == "openai_compatible"@ {
        Some(ProtocolType::OpenaiCompatible)
    } else if s == "anthropic_messages"@ {
        Some(ProtocolType::AnthropicMessages)
    } else if s == "google_gemini"@ {
        Some(ProtocolType::GoogleGemini)
    } else {
        None
    }
}

/// The entry that a custom `[providers.<name>]` table registers.
pub open spec fn custom_entry_view(
    name: Seq<char>,
    cfg: ProviderTomlConfig,
    protocol: ProtocolType,
    base_url: Seq<char>,
) -> ProviderView {
    ProviderView {
        name,
        display_name: match cfg.display_name {
            Some(d) => d@,
            None => name,
        },
        protocol,
        base_url,
        api_key: opt_seq(cfg.api_key),
        default_model: opt_seq(cfg.model),
        http_headers: opt_headers(cfg.http_headers),
        capabilities: match cfg.capabilities {
            Some(c) => merge_caps(c, spec_protocol_defaults(protocol)),
            None => spec_protocol_defaults(protocol),
        },
        is_builtin: false,
        overridden_fields: Seq::empty(),
    }
}

/// The protocol of a user-defined provider: the one its table names, or
/// `openai_compatible` when it names none; an unknown name is refused.
pub open spec fn custom_protocol(p: Option<String>) -> Result<ProtocolType, Seq<char>> {
    match p {
        None => Ok(ProtocolType::OpenaiCompatible),
        Some(ps) => match parse_protocol(ps@) {
            Some(protocol) => Ok(protocol),
            None => Err(ps@),
        },
    }
}

/// One `[providers.<name>]` table applied to the registry contents `m`.
pub open spec fn custom_step(
    m: Map<Seq<char>, ProviderView>,
    name: Seq<char>,
    cfg: ProviderTomlConfig,
) -> Result<Map<Seq<char>, ProviderView>, ErrorView> {
    if m.contains_key(name) && m[name].is_builtin {
        if cfg.protocol is Some {
            Err(err_view(RegistryErrorKind::BuiltinProtocolConflict, name))
        } else {
            Ok(
                m.insert(
                    name,
                    override_view(
                        m[name],
                        opt_seq(cfg.api_key),
                        opt_seq(cfg.base_url),
                        opt_seq(cfg.model),
                        opt_map(cfg.http_headers),
                        cfg.capabilities,
                    ),
                ),
            )
        }
    } else {
        match custom_protocol(cfg.protocol) {
            Err(ps) => Err(ErrorView { kind: RegistryErrorKind::UnknownProtocol, name, protocol: ps }),
            Ok(protocol) => match cfg.base_url {
                None => Err(err_view(RegistryErrorKind::CustomMissingBaseUrl, name)),
                Some(url) => if m.contains_key(name) {
                    Err(err_view(RegistryErrorKind::AlreadyExists, name))
                } else if !spec_name_valid(name) {
                    Err(err_view(RegistryErrorKind::InvalidName, name))
                } else {
                    Ok(m.insert(name, custom_entry_view(name, cfg, protocol, url@)))
                },
            },
        }
    }
}

/// The tables applied in order, stopping at the first failure: the contents
/// reached and the failure, if any.
pub open spec fn custom_fold(
    m: Map<Seq<char>, ProviderView>,
    es: Seq<(String, ProviderTomlConfig)>,
) -> (Map<Seq<char>, ProviderView>, Option<ErrorView>)
    decreases es.len(),
{
    if es.len() == 0 {
        (m, None)
    } else {
        let (m1, e1) = custom_fold(m, es.drop_last());
        if e1 is Some {
            (m1, e1)
        } else {
            match custom_step(m1, es.last().0@, es.last().1) {
                Ok(m2) => (m2, None),
                Err(e) => (m1, Some(e)),
            }
        }
    }
}

pub fn clone_opt_headers(o: &Option<HashMap<String, String>>) -> (r: Option<
    HashMap<String, String>,
>)
    ensures
        opt_map(r) == opt_map(*o),
        opt_headers(r) == opt_headers(*o),
{
    match o {
        Some(h) => Some(h.clone()),
        None => None,
    }
}

/// Each builtin provider name of the table is a builtin name.
pub proof fn lemma_builtin_names_contains()
    ensures
        is_builtin_name("deepseek"@),
        is_builtin_name("deepseek-cn"@),
        is_builtin_name("openai"@),
        is_builtin_name("openrouter"@),
        is_builtin_name("nvidia-nim"@),
        is_builtin_name("novita"@),
        is_builtin_name("fireworks"@),
        is_builtin_name("sglang"@),
        is_builtin_name("vllm"@),
        is_builtin_name("ollama"@),
{
    let s = builtin_names_spec();
    assert(s[0] == "deepseek"@);
    assert(s[1] == "deepseek-cn"@);
    assert(s[2] == "openai"@);
    assert(s[3] == "openrouter"@);
    assert(s[4] == "nvidia-nim"@);
    assert(s[5] == "novita"@);
    assert(s[6] == "fireworks"@);
    assert(s[7] == "sglang"@);
    assert(s[8] == "vllm"@);
    assert(s[9] == "ollama"@);
}

/// Once a table has failed, the tables after it change nothing.
proof fn lemma_custom_fold_stops(
    m: Map<Seq<char>, ProviderView>,
    es: Seq<(String, ProviderTomlConfig)>,
    j: int,
    n: int,
)
    requires
        0 <= j <= n <= es.len(),
        custom_fold(m, es.take(j)).1 is Some,
    ensures
        custom_fold(m, es.take(n)) == custom_fold(m, es.take(j)),
    decreases n - j,
{
    if n > j {
        lemma_custom_fold_stops(m, es, j, n - 1);
        assert(es.take(n).drop_last() =~= es.take(n - 1));
    }
}

/// The builtin providers are present and flagged, and only they are flagged.
pub open spec fn builtin_inv(m: Map<Seq<char>, ProviderView>) -> bool {
    &&& forall|k: Seq<char>| is_builtin_name(k) ==> #[trigger] m.contains_key(k) && m[k].is_builtin
    &&& forall|k: Seq<char>| #[trigger] m.contains_key(k) && m[k].is_builtin ==> is_builtin_name(k)
}

/// Storing a provider under a key keeps the invariant when the builtin flag
/// agrees with the key.
proof fn lemma_builtin_inv_insert(m: Map<Seq<char>, ProviderView>, k0: Seq<char>, v: ProviderView)
    requires
        builtin_inv(m),
        v.is_builtin == is_builtin_name(k0),
    ensures
        builtin_inv(m.insert(k0, v)),
{
    let m2 = m.insert(k0, v);
    assert forall|k: Seq<char>| is_builtin_name(k) implies #[trigger] m2.contains_key(k)
        && m2[k].is_builtin by {
        if k != k0 {
            assert(m.contains_key(k));
        }
    }
    assert forall|k: Seq<char>| #[trigger] m2.contains_key(k) && m2[k].is_builtin implies is_builtin_name(k) by {
        if k != k0 {
            assert(m.contains_key(k) && m[k].is_builtin);
        }
    }
}

/// Removing a provider that is not builtin keeps the invariant.
proof fn lemma_builtin_inv_remove(m: Map<Seq<char>, ProviderView>, k0: Seq<char>)
    requires
        builtin_inv(m),
        m.contains_key(k0),
        !m[k0].is_builtin,
    ensures
        builtin_inv(m.remove(k0)),
{
    let m2 = m.remove(k0);
    assert forall|k: Seq<char>| is_builtin_name(k) implies #[trigger] m2.contains_key(k)
        && m2[k].is_builtin by {
        assert(is_builtin_name(k));
        assert(m.contains_key(k));
        assert(m[k].is_builtin);
    }
    assert forall|k: Seq<char>| #[trigger] m2.contains_key(k) && m2[k].is_builtin implies is_builtin_name(k) by {
        assert(k != k0);
        assert(m.contains_key(k));
        assert(m2[k] == m[k]);
    }
}

/// The registry of all known providers, the builtin ones and user-defined ones.
pub struct ProviderRegistry {
    providers: Vec<ResolvedProvider>,
    builtin_defaults: CompileTimeDefaults,
    active_provider: String,
}

impl View for ProviderRegistry {
    type V = Map<Seq<char>, ProviderView>;

    closed spec fn view(&self) -> Map<Seq<char>, ProviderView> {
        provider_map(self.providers@)
    }
}

impl ProviderRegistry {
    /// The name of the active provider.
    pub closed spec fn active_name(&self) -> Seq<char> {
        self.active_provider@
    }

    /// Well-formedness: names are kept sorted (hence unique), the builtin table
    /// is intact, and the builtin providers are exactly the builtin-flagged ones.
    pub closed spec fn wf(&self) -> bool {
        &&& sorted_names(self.providers@)
        &&& self.builtin_defaults.wf()
        &&& builtin_inv(self@)
    }

    /// Every provider is stored under its own name; the builtin providers are
    /// always present and are exactly the providers flagged builtin.
    pub proof fn lemma_wf(&self)
        requires
            self.wf(),
        ensures
            forall|k: Seq<char>| #[trigger] self@.contains_key(k) ==> self@[k].name == k,
            forall|k: Seq<char>|
                is_builtin_name(k) ==> #[trigger] self@.contains_key(k) && self@[k].is_builtin,
            forall|k: Seq<char>|
                #[trigger] self@.contains_key(k) ==> (self@[k].is_builtin <==> is_builtin_name(k)),
    {
        lemma_map_keys(self.providers@);
        assert(builtin_inv(self@));
    }

    fn resolve_builtin(name: &str, bd: &BuiltinDefaults) -> (r: ResolvedProvider)
        ensures
            r@ == default_view(name@, bd@),
    {
        ResolvedProvider {
            name: name.to_owned(),
            display_name: bd.display_name.clone(),
            protocol: bd.protocol,
            base_url: bd.base_url.clone(),
            api_key: None,
            default_model: clone_opt_string(&bd.default_model),
            http_headers: HashMap::new(),
            capabilities: bd.capabilities,
            is_builtin: true,
            overridden_fields: Vec::new(),
        }
    }

    /// A registry holding the builtin providers with their defaults, with
    /// `deepseek` active.
    pub fn new() -> (r: Self)
        ensures
            r.wf(),
            r@ == builtin_map(),
            r.active_name() == "deepseek"@,
    {
        let builtin_defaults = CompileTimeDefaults::new();
        let names = builtin_defaults.all_names();
        let mut providers: Vec<ResolvedProvider> = Vec::new();
        let ghost all = builtin_names_spec();
        proof {
            lemma_builtin_names_distinct();
        }
        let mut i: usize = 0;
        while i < names.len()
            invariant
                builtin_defaults.wf(),
                names@.len() == 10,
                forall|k: int| 0 <= k < 10 ==> (#[trigger] names@[k])@ == all[k],
                all == builtin_names_spec(),
                all.no_duplicates(),
                all.len() == 10,
                i <= 10,
                sorted_names(providers@),
                provider_map(providers@) == Map::new(
                    |k: Seq<char>| all.take(i as int).contains(k),
                    |k: Seq<char>| default_view(k, builtin_spec(k)),
                ),
            decreases 10 - i,
        {
            let name = names[i];
            let bd = builtin_defaults.get(name).unwrap();
            let p = Self::resolve_builtin(name, bd);
            proof {
                assert(!all.take(i as int).contains(name@)) by {
                    if all.take(i as int).contains(name@) {
                        let j = choose|j: int| 0 <= j < i && all.take(i as int)[j] == name@;
                        assert(all[j] == all[i as int]);
                    }
                }
                if has_name(providers@, name@) {
                    let j = choose|j: int| 0 <= j < providers@.len() && (#[trigger] providers@[j]).name@ == name@;
                    lemma_map_at(providers@, j);
                }
            }
            insert_sorted(&mut providers, p);
            i = i + 1;
            proof {
                assert(provider_map(providers@) =~= Map::new(
                    |k: Seq<char>| all.take(i as int).contains(k),
                    |k: Seq<char>| default_view(k, builtin_spec(k)),
                )) by {
                    let t1 = all.take(i as int);
                    let t0 = all.take(i - 1);
                    assert forall|k: Seq<char>| t1.contains(k) <==> (t0.contains(k) || k == all[i - 1]) by {
                        if t1.contains(k) {
                            let j = choose|j: int| 0 <= j < t1.len() && t1[j] == k;
                            if j < i - 1 {
                                assert(t0[j] == k);
                            }
                        }
                        if t0.contains(k) {
                            let j = choose|j: int| 0 <= j < t0.len() && t0[j] == k;
                            assert(t1[j] == k);
                        }
                        if k == all[i - 1] {
                            assert(t1[i - 1] == k);
                        }
                    }
                }
            }
        }
        assert(all.take(10) =~= all);
        let r = ProviderRegistry { providers, builtin_defaults, active_provider: "deepseek".to_owned() };
        proof {
            assert(r@ =~= builtin_map());
            lemma_map_keys(r.providers@);
        }
        r
    }

    /// The provider with the given name.
    pub fn get(&self, name: &str) -> (r: Option<&ResolvedProvider>)
        requires
            self.wf(),
        ensures
            match r {
                Some(p) => self@.contains_key(name@) && self@[name@] == p@,
                None => !self@.contains_key(name@),
            },
    {
        let n = chars_of(name);
        match find_index(&self.providers, &n) {
            Some(i) => {
                proof {
                    lemma_map_at(self.providers@, i as int);
                }
                Some(&self.providers[i])
            },
            None => None,
        }
    }

    /// Mutable access to the named provider. The registry then holds whatever
    /// the caller leaves in it; it stays well formed when the name and the
    /// builtin flag are left as they were.
    pub fn get_mut(&mut self, name: &str) -> (r: Option<&mut ResolvedProvider>)
        requires
            old(self).wf(),
        ensures
            final(self).active_name() == old(self).active_name(),
            match r {
                Some(p) => old(self)@.contains_key(name@) && old(self)@[name@] == p@ && ((
                final(p).name@ == name@ && final(p).is_builtin == p.is_builtin) ==> (
                final(self).wf() && final(self)@ == old(self)@.insert(name@, final(p)@))),
                None => !old(self)@.contains_key(name@) && final(self)@ == old(self)@
                    && final(self).wf(),
            },
    {
        let n = chars_of(name);
        match find_index(&self.providers, &n) {
            Some(i) => {
                proof {
                    lemma_map_at(self.providers@, i as int);
                }
                let ghost before = self.providers@;
                proof {
                    assert forall|q: ResolvedProvider|
                        q.name@ == name@ && q.is_builtin == before[i as int].is_builtin implies {
                        &&& sorted_names(#[trigger] before.update(i as int, q))
                        &&& provider_map(before.update(i as int, q)) == provider_map(before).insert(
                            name@,
                            q@,
                        )
                        &&& builtin_inv(provider_map(before.update(i as int, q)))
                    } by {
                        lemma_map_update(before, i as int, q);
                        lemma_builtin_inv_insert(provider_map(before), name@, q@);
                    }
                }
                Some(&mut self.providers[i])
            },
            None => None,
        }
    }

    /// Whether the named provider exists and is a builtin one.
    pub fn is_builtin(&self, name: &str) -> (r: bool)
        requires
            self.wf(),
        ensures
            r == (self@.contains_key(name@) && self@[name@].is_builtin),
    {
        match self.get(name) {
            Some(p) => p.is_builtin,
            None => false,
        }
    }

    /// All providers, ordered by name.
    pub fn all_providers(&self) -> (r: Vec<&ResolvedProvider>)
        requires
            self.wf(),
        ensures
            forall|i: int, j: int|
                0 <= i < j < r@.len() ==> seq_lt(#[trigger] r@[i].name@, #[trigger] r@[j].name@),
            forall|i: int|
                0 <= i < r@.len() ==> self@.contains_key((#[trigger] r@[i]).name@) && self@[r@[i].name@]
                    == r@[i]@,
            forall|k: Seq<char>|
                #[trigger] self@.contains_key(k) ==> exists|i: int|
                    0 <= i < r@.len() && (#[trigger] r@[i]).name@ == k,
    {
        let mut r: Vec<&ResolvedProvider> = Vec::new();
        let mut i: usize = 0;
        while i < self.providers.len()
            invariant
                self.wf(),
                i <= self.providers@.len(),
                r@.len() == i,
                forall|k: int| 0 <= k < i ==> *(#[trigger] r@[k]) == self.providers@[k],
            decreases self.providers@.len() - i,
        {
            r.push(&self.providers[i]);
            i = i + 1;
        }
        proof {
            assert forall|a: int| 0 <= a < r@.len() implies self@.contains_key((#[trigger] r@[a]).name@)
                && self@[r@[a].name@] == r@[a]@ by {
                lemma_map_at(self.providers@, a);
            }
            assert forall|k: Seq<char>| #[trigger] self@.contains_key(k) implies exists|a: int|
                0 <= a < r@.len() && (#[trigger] r@[a]).name@ == k by {
                let a = index_of_name(self.providers@, k);
                assert(*r@[a] == self.providers@[a]);
            }
            assert forall|a: int, b: int| 0 <= a < b < r@.len() implies seq_lt(
                #[trigger] r@[a].name@,
                #[trigger] r@[b].name@,
            ) by {
                assert(*r@[a] == self.providers@[a]);
                assert(*r@[b] == self.providers@[b]);
            }
        }
        r
    }

    /// The name of the active provider.
    pub fn active_provider(&self) -> (r: &str)
        ensures
            r@ == self.active_name(),
    {
        self.active_provider.as_str()
    }

    /// Makes the named provider active; fails when no such provider exists.
    pub fn set_active(&mut self, name: &str) -> (r: Result<(), RegistryError>)
        requires
            old(self).wf(),
        ensures
            final(self).wf(),
            final(self)@ == old(self)@,
            old(self)@.contains_key(name@) ==> r is Ok && final(self).active_name() == name@,
            !old(self)@.contains_key(name@) ==> (r matches Err(e) && e@ == err_view(
                RegistryErrorKind::NotFound,
                name@,
            )) && final(self).active_name() == old(self).active_name(),
    {
        if self.get(name).is_none() {
            return Err(RegistryError::new(RegistryErrorKind::NotFound, name));
        }
        self.active_provider = name.to_owned();
        Ok(())
    }

    /// The names of the builtin providers.
    pub fn builtin_names(&self) -> (r: Vec<&str>)
        requires
            self.wf(),
        ensures
            r@.len() == builtin_names_spec().len(),
            forall|i: int| 0 <= i < r@.len() ==> (#[trigger] r@[i])@ == builtin_names_spec()[i],
    {
        self.builtin_defaults.all_names()
    }

    /// Adds a user-defined provider. Refused, with nothing changed, when the
    /// name is taken or invalid, or when the protocol or base URL is missing.
    pub fn register(&mut self, entry: ProviderEntry) -> (r: Result<(), RegistryError>)
        requires
            old(self).wf(),
        ensures
            final(self).wf(),
            final(self).active_name() == old(self).active_name(),
            match register_error(old(self)@, entry) {
                Some(e) => (r matches Err(x) && x@ == e) && final(self)@ == old(self)@,
                None => r is Ok && final(self)@ == old(self)@.insert(entry.name@, entry_view(entry)),
            },
    {
        let ghost e0 = entry;
        let n = chars_of(entry.name.as_str());
        if find_index(&self.providers, &n).is_some() {
            proof {
                let i = choose|i: int| 0 <= i < self.providers@.len() && (#[trigger] self.providers@[i]).name@ == entry.name@;
                lemma_map_at(self.providers@, i);
            }
            return Err(RegistryError::new(RegistryErrorKind::AlreadyExists, entry.name.as_str()));
        }
        if !Self::is_name_valid(entry.name.as_str()) {
            return Err(RegistryError::new(RegistryErrorKind::InvalidName, entry.name.as_str()));
        }
        let protocol = match entry.protocol {
            Some(p) => p,
            None => {
                return Err(RegistryError::new(RegistryErrorKind::MissingProtocol, entry.name.as_str()));
            },
        };
        let ProviderEntry {
            name,
            display_name,
            protocol: _,
            base_url,
            api_key,
            default_model,
            http_headers,
            capabilities,
            is_builtin: _,
        } = entry;
        let base_url = match base_url {
            Some(u) => u,
            None => {
                return Err(RegistryError::new(RegistryErrorKind::MissingBaseUrl, name.as_str()));
            },
        };
        let protocol_defaults = CapabilityBridge::protocol_defaults(protocol);
        let resolved_caps = match capabilities {
            Some(uc) => uc.merge_with_defaults(&protocol_defaults),
            None => protocol_defaults,
        };
        let display_name = match display_name {
            Some(d) => d,
            None => name.clone(),
        };
        let http_headers = match http_headers {
            Some(h) => h,
            None => HashMap::new(),
        };
        let resolved = ResolvedProvider {
            name,
            display_name,
            protocol,
            base_url,
            api_key,
            default_model,
            http_headers,
            capabilities: resolved_caps,
            is_builtin: false,
            overridden_fields: Vec::new(),
        };
        assert(resolved@ == entry_view(e0));
        proof {
            assert(!is_builtin_name(e0.name@));
            lemma_builtin_inv_insert(old(self)@, e0.name@, entry_view(e0));
        }
        insert_sorted(&mut self.providers, resolved);
        Ok(())
    }

    /// Removes a user-defined provider, or resets an overridden builtin one to
    /// its defaults; a builtin provider without overrides stays as it is.
    pub fn unregister(&mut self, name: &str) -> (r: Result<UnregisterOutcome, RegistryError>)
        requires
            old(self).wf(),
        ensures
            final(self).wf(),
            final(self).active_name() == old(self).active_name(),
            !old(self)@.contains_key(name@) ==> (r matches Err(e) && e@ == err_view(
                RegistryErrorKind::NotFound,
                name@,
            )) && final(self)@ == old(self)@,
            old(self)@.contains_key(name@) && !old(self)@[name@].is_builtin ==> r == Ok::<
                UnregisterOutcome,
                RegistryError,
            >(UnregisterOutcome::Removed) && final(self)@ == old(self)@.remove(name@),
            old(self)@.contains_key(name@) && old(self)@[name@].is_builtin
                && old(self)@[name@].overridden_fields.len() == 0 ==> r == Ok::<
                UnregisterOutcome,
                RegistryError,
            >(UnregisterOutcome::CannotRemoveBuiltin) && final(self)@ == old(self)@,
            old(self)@.contains_key(name@) && old(self)@[name@].is_builtin
                && old(self)@[name@].overridden_fields.len() > 0 ==> r == Ok::<
                UnregisterOutcome,
                RegistryError,
            >(UnregisterOutcome::ClearedOverride) && final(self)@ == old(self)@.insert(
                name@,
                default_view(name@, builtin_spec(name@)),
            ),
    {
        let n = chars_of(name);
        let i = match find_index(&self.providers, &n) {
            Some(i) => i,
            None => {
                return Err(RegistryError::new(RegistryErrorKind::NotFound, name));
            },
        };
        proof {
            lemma_map_at(self.providers@, i as int);
            lemma_map_keys(self.providers@);
        }
        if self.providers[i].is_builtin {
            if self.providers[i].overridden_fields.len() == 0 {
                return Ok(UnregisterOutcome::CannotRemoveBuiltin);
            }
            let bd = self.builtin_defaults.get(name).unwrap();
            let p = Self::resolve_builtin(name, bd);
            proof {
                lemma_map_update(self.providers@, i as int, p);
                lemma_builtin_inv_insert(old(self)@, name@, p@);
            }
            self.providers.set(i, p);
            return Ok(UnregisterOutcome::ClearedOverride);
        }
        proof {
            lemma_map_remove(self.providers@, i as int);
            lemma_builtin_inv_remove(old(self)@, name@);
        }
        self.providers.remove(i);
        Ok(UnregisterOutcome::Removed)
    }

    /// Overrides settings of a builtin provider; refused for an unknown or a
    /// user-defined provider.
    pub fn apply_override_for_builtin(
        &mut self,
        name: &str,
        api_key: Option<String>,
        base_url: Option<String>,
        model: Option<String>,
        http_headers: Option<HashMap<String, String>>,
        capabilities: Option<ModelCapabilities>,
    ) -> (r: Result<(), RegistryError>)
        requires
            old(self).wf(),
        ensures
            final(self).wf(),
            final(self).active_name() == old(self).active_name(),
            !old(self)@.contains_key(name@) ==> (r matches Err(e) && e@ == err_view(
                RegistryErrorKind::NotFound,
                name@,
            )) && final(self)@ == old(self)@,
            old(self)@.contains_key(name@) && !old(self)@[name@].is_builtin ==> (r matches Err(e)
                && e@ == err_view(RegistryErrorKind::NotBuiltin, name@)) && final(self)@ == old(self)@,
            old(self)@.contains_key(name@) && old(self)@[name@].is_builtin ==> r is Ok
                && final(self)@ == old(self)@.insert(
                name@,
                override_view(
                    old(self)@[name@],
                    opt_seq(api_key),
                    opt_seq(base_url),
                    opt_seq(model),
                    opt_map(http_headers),
                    capabilities,
                ),
            ),
    {
        let n = chars_of(name);
        let i = match find_index(&self.providers, &n) {
            Some(i) => i,
            None => {
                return Err(RegistryError::new(RegistryErrorKind::NotFound, name));
            },
        };
        proof {
            lemma_map_at(self.providers@, i as int);
        }
        if !self.providers[i].is_builtin {
            return Err(RegistryError::new(RegistryErrorKind::NotBuiltin, name));
        }
        let ghost before = self.providers@[i as int];
        let has_key = api_key.is_some();
        let has_url = base_url.is_some();
        let has_model = model.is_some();
        let has_headers = http_headers.is_some();
        let has_caps = capabilities.is_some();
        let mut overridden: Vec<OverrideField> = Vec::new();
        if has_key {
            self.providers[i].api_key = api_key;
            overridden.push(OverrideField::ApiKey);
        }
        match base_url {
            Some(u) => {
                self.providers[i].base_url = u;
                overridden.push(OverrideField::BaseUrl);
            },
            None => {},
        }
        if has_model {
            self.providers[i].default_model = model;
            overridden.push(OverrideField::DefaultModel);
        }
        match http_headers {
            Some(h) => {
                self.providers[i].http_headers = h;
                overridden.push(OverrideField::HttpHeaders);
            },
            None => {},
        }
        match capabilities {
            Some(user_caps) => {
                let builtin_caps = self.providers[i].capabilities;
                self.providers[i].capabilities = user_caps.merge_with_defaults(&builtin_caps);
                overridden.push(OverrideField::Capabilities);
            },
            None => {},
        }
        assert(overridden@ =~= override_fields(has_key, has_url, has_model, has_headers, has_caps));
        self.providers[i].overridden_fields = overridden;
        proof {
            let after = self.providers@[i as int];
            assert(after.name@ == before.name@);
            assert(after@ == override_view(
                before@,
                opt_seq(api_key),
                opt_seq(base_url),
                opt_seq(model),
                opt_map(http_headers),
                capabilities,
            ));
            assert(self.providers@ == old(self).providers@.update(i as int, after));
            lemma_map_update(old(self).providers@, i as int, after);
            lemma_builtin_inv_insert(old(self)@, name@, after@);
        }
        Ok(())
    }

    /// Applies one builtin provider's table of the configuration.
    fn apply_provider_config_entry(&mut self, name: &str, pc: &ProviderConfig) -> (r: Result<
        (),
        RegistryError,
    >)
        requires
            old(self).wf(),
            is_builtin_name(name@),
        ensures
            final(self).wf(),
            final(self).active_name() == old(self).active_name(),
            r is Ok,
            final(self)@ == apply_provider_config(old(self)@, name@, *pc),
    {
        if pc.api_key.is_none() && pc.base_url.is_none() && pc.model.is_none() {
            return Ok(());
        }
        proof {
            self.lemma_wf();
        }
        self.apply_override_for_builtin(
            name,
            clone_opt_string(&pc.api_key),
            clone_opt_string(&pc.base_url),
            clone_opt_string(&pc.model),
            clone_opt_headers(&pc.http_headers),
            None,
        )
    }

    /// Applies the `[providers.<builtin>]` tables of the configuration to the
    /// builtin providers; a table that sets no key, base URL or model is skipped.
    pub fn load_from_providers_config(&mut self, config: &ProvidersConfig) -> (r: Result<
        (),
        RegistryError,
    >)
        requires
            old(self).wf(),
        ensures
            final(self).wf(),
            final(self).active_name() == old(self).active_name(),
            r is Ok,
            final(self)@ == spec_load_providers_config(old(self)@, *config),
    {
        proof {
            lemma_builtin_names_contains();
        }
        self.apply_provider_config_entry("deepseek", &config.deepseek)?;
        self.apply_provider_config_entry("deepseek-cn", &config.deepseek_cn)?;
        self.apply_provider_config_entry("nvidia-nim", &config.nvidia_nim)?;
        self.apply_provider_config_entry("openai", &config.openai)?;
        self.apply_provider_config_entry("openrouter", &config.openrouter)?;
        self.apply_provider_config_entry("novita", &config.novita)?;
        self.apply_provider_config_entry("fireworks", &config.fireworks)?;
        self.apply_provider_config_entry("sglang", &config.sglang)?;
        self.apply_provider_config_entry("vllm", &config.vllm)?;
        self.apply_provider_config_entry("ollama", &config.ollama)?;
        Ok(())
    }

    /// Applies one `[providers.<name>]` table: an override when `name` is a
    /// builtin provider, else the registration of a user-defined provider.
    fn apply_custom_entry(&mut self, name: &String, cfg: &ProviderTomlConfig) -> (r: Result<
        (),
        RegistryError,
    >)
        requires
            old(self).wf(),
        ensures
            final(self).wf(),
            final(self).active_name() == old(self).active_name(),
            match custom_step(old(self)@, name@, *cfg) {
                Ok(m) => r is Ok && final(self)@ == m,
                Err(e) => (r matches Err(x) && x@ == e) && final(self)@ == old(self)@,
            },
    {
        if self.is_builtin(name.as_str()) {
            if cfg.protocol.is_some() {
                return Err(
                    RegistryError::new(RegistryErrorKind::BuiltinProtocolConflict, name.as_str()),
                );
            }
            return self.apply_override_for_builtin(
                name.as_str(),
                clone_opt_string(&cfg.api_key),
                clone_opt_string(&cfg.base_url),
                clone_opt_string(&cfg.model),
                clone_opt_headers(&cfg.http_headers),
                cfg.capabilities,
            );
        }
        let protocol = match &cfg.protocol {
            None => ProtocolType::OpenaiCompatible,
            Some(protocol_str) => if crate::text::str_eq(protocol_str.as_str(), "openai_compatible") {
                ProtocolType::OpenaiCompatible
            } else if crate::text::str_eq(protocol_str.as_str(), "anthropic_messages") {
                ProtocolType::AnthropicMessages
            } else if crate::text::str_eq(protocol_str.as_str(), "google_gemini") {
                ProtocolType::GoogleGemini
            } else {
                return Err(
                    RegistryError {
                        kind: RegistryErrorKind::UnknownProtocol,
                        name: name.clone(),
                        protocol: protocol_str.clone(),
                    },
                );
            },
        };
        let base_url = match &cfg.base_url {
            Some(u) => u.clone(),
            None => {
                return Err(
                    RegistryError::new(RegistryErrorKind::CustomMissingBaseUrl, name.as_str()),
                );
            },
        };
        let entry = ProviderEntry {
            name: name.clone(),
            display_name: clone_opt_string(&cfg.display_name),
            protocol: Some(protocol),
            base_url: Some(base_url),
            api_key: clone_opt_string(&cfg.api_key),
            default_model: clone_opt_string(&cfg.model),
            http_headers: clone_opt_headers(&cfg.http_headers),
            capabilities: cfg.capabilities,
            is_builtin: false,
        };
        assert(entry_view(entry) == custom_entry_view(name@, *cfg, protocol, base_url@));
        self.register(entry)
    }

    /// Applies the `[providers.<name>]` tables in order, stopping at the first
    /// one that fails; the tables applied before it stay applied.
    pub fn load_from_custom_providers(&mut self, custom: &ProvidersToml) -> (r: Result<
        (),
        RegistryError,
    >)
        requires
            old(self).wf(),
        ensures
            final(self).wf(),
            final(self).active_name() == old(self).active_name(),
            final(self)@ == custom_fold(old(self)@, custom.entries@).0,
            match custom_fold(old(self)@, custom.entries@).1 {
                None => r is Ok,
                Some(e) => r matches Err(x) && x@ == e,
            },
    {
        let ghost es = custom.entries@;
        let mut i: usize = 0;
        assert(es.take(0).len() == 0);
        while i < custom.entries.len()
            invariant
                self.wf(),
                self.active_name() == old(self).active_name(),
                es == custom.entries@,
                i <= es.len(),
                custom_fold(old(self)@, es.take(i as int)) == (self@, None::<ErrorView>),
            decreases es.len() - i,
        {
            let res = self.apply_custom_entry(&custom.entries[i].0, &custom.entries[i].1);
            proof {
                assert(es.take(i + 1).drop_last() =~= es.take(i as int));
                assert(es.take(i + 1).last() == es[i as int]);
            }
            match res {
                Err(e) => {
                    proof {
                        lemma_custom_fold_stops(old(self)@, es, i + 1, es.len() as int);
                        assert(es.take(es.len() as int) =~= es);
                    }
                    return Err(e);
                },
                Ok(()) => {},
            }
            i = i + 1;
        }
        assert(es.take(es.len() as int) =~= es);
        Ok(())
    }

    /// Whether a name may be used for a user-defined provider.
    pub fn is_name_valid(name: &str) -> (r: bool)
        ensures
            r == spec_name_valid(name@),
    {
        let v = chars_of(name);
        if v.len() == 0 || v.len() > 63 {
            return false;
        }
        let first = v[0];
        if !(('a' <= first && first <= 'z') || ('A' <= first && first <= 'Z')) {
            return false;
        }
        let mut i: usize = 0;
        while i < v.len()
            invariant
                v@ == name@,
                i <= v@.len(),
                forall|k: int| 0 <= k < i ==> is_name_char(#[trigger] v@[k]),
            decreases v@.len() - i,
        {
            let c = v[i];
            if !(('a' <= c && c <= 'z') || ('0' <= c && c <= '9') || c == '-') {
                assert(!is_name_char(name@[i as int]));
                return false;
            }
            i = i + 1;
        }
        !crate::text::str_contains(name, "..") && !crate::text::str_contains(name, "/")
            && !crate::text::str_contains(name, "\\")
    }
}


/// The user's capabilities win over the builtin's, field by field: after an
/// override with capabilities `c`, every capability that `c` states is the
/// provider's, and every one that `c` leaves out keeps the provider's earlier
/// value; an override without capabilities leaves them all as they were.
pub proof fn law_override_capabilities(
    p: ProviderView,
    api_key: Option<Seq<char>>,
    base_url: Option<Seq<char>>,
    model: Option<Seq<char>>,
    http_headers: Option<Map<String, String>>,
    c: ModelCapabilities,
)
    ensures
        ({
            let q = override_view(p, api_key, base_url, model, http_headers, Some(c)).capabilities;
            let b = p.capabilities;
            &&& q.thinking_supported == (if c.thinking_supported is Some {
                c.thinking_supported
            } else {
                b.thinking_supported
            })
            &&& q.supports_tools == (if c.supports_tools is Some {
                c.supports_tools
            } else {
                b.supports_tools
            })
            &&& q.supports_reasoning == (if c.supports_reasoning is Some {
                c.supports_reasoning
            } else {
                b.supports_reasoning
            })
            &&& q.supports_vision == (if c.supports_vision is Some {
                c.supports_vision
            } else {
                b.supports_vision
            })
            &&& q.supports_streaming == (if c.supports_streaming is Some {
                c.supports_streaming
            } else {
                b.supports_streaming
            })
            &&& q.supports_embedding == (if c.supports_embedding is Some {
                c.supports_embedding
            } else {
                b.supports_embedding
            })
            &&& q.context_window == (if c.context_window is Some {
                c.context_window
            } else {
                b.context_window
            })
            &&& q.max_output == (if c.max_output is Some {
                c.max_output
            } else {
                b.max_output
            })
            &&& q.cache_telemetry_supported == (if c.cache_telemetry_supported is Some {
                c.cache_telemetry_supported
            } else {
                b.cache_telemetry_supported
            })
        }),
        override_view(p, api_key, base_url, model, http_headers, None).capabilities
            == p.capabilities,
{
}

/// A `[providers.<builtin>]` table that names no protocol overrides the
/// builtin provider, and the capabilities it states win over the builtin's,
/// field by field; those it leaves out keep the builtin's values.
pub proof fn law_custom_table_overrides_builtin(
    m: Map<Seq<char>, ProviderView>,
    name: Seq<char>,
    cfg: ProviderTomlConfig,
    c: ModelCapabilities,
)
    requires
        m.contains_key(name),
        m[name].is_builtin,
        cfg.protocol is None,
        cfg.capabilities == Some(c),
    ensures
        custom_step(m, name, cfg) matches Ok(m2) && m2.contains_key(name) && {
            let q = m2[name].capabilities;
            let b = m[name].capabilities;
            &&& q.thinking_supported == (if c.thinking_supported is Some {
                c.thinking_supported
            } else {
                b.thinking_supported
            })
            &&& q.supports_tools == (if c.supports_tools is Some {
                c.supports_tools
            } else {
                b.supports_tools
            })
            &&& q.supports_reasoning == (if c.supports_reasoning is Some {
                c.supports_reasoning
            } else {
                b.supports_reasoning
            })
            &&& q.supports_vision == (if c.supports_vision is Some {
                c.supports_vision
            } else {
                b.supports_vision
            })
            &&& q.supports_streaming == (if c.supports_streaming is Some {
                c.supports_streaming
            } else {
                b.supports_streaming
            })
            &&& q.supports_embedding == (if c.supports_embedding is Some {
                c.supports_embedding
            } else {
                b.supports_embedding
            })
            &&& q.context_window == (if c.context_window is Some {
                c.context_window
            } else {
                b.context_window
            })
            &&& q.max_output == (if c.max_output is Some {
                c.max_output
            } else {
                b.max_output
            })
            &&& q.cache_telemetry_supported == (if c.cache_telemetry_supported is Some {
                c.cache_telemetry_supported
            } else {
                b.cache_telemetry_supported
            })
        },
{
    law_override_capabilities(
        m[name],
        opt_seq(cfg.api_key),
        opt_seq(cfg.base_url),
        opt_seq(cfg.model),
        opt_map(cfg.http_headers),
        c,
    );
}

/// A builtin override sets exactly what it is given: a given key, base URL,
/// model or header set replaces the provider's, one not given leaves it as it
/// was; the name, display name, protocol and builtin flag never change.
pub proof fn law_override_settings(
    p: ProviderView,
    api_key: Option<Seq<char>>,
    base_url: Option<Seq<char>>,
    model: Option<Seq<char>>,
    http_headers: Option<Map<String, String>>,
    capabilities: Option<ModelCapabilities>,
)
    ensures
        ({
            let q = override_view(p, api_key, base_url, model, http_headers, capabilities);
            &&& q.api_key == (if api_key is Some {
                api_key
            } else {
                p.api_key
            })
            &&& q.base_url == (if base_url is Some {
                base_url.unwrap()
            } else {
                p.base_url
            })
            &&& q.default_model == (if model is Some {
                model
            } else {
                p.default_model
            })
            &&& q.http_headers == (if http_headers is Some {
                http_headers.unwrap()
            } else {
                p.http_headers
            })
            &&& q.name == p.name && q.display_name == p.display_name && q.protocol == p.protocol
                && q.is_builtin == p.is_builtin
        }),
{
}

/// A `[providers.<name>]` table for a new, validly named provider with a base
/// URL registers a user-defined provider under that name with that base URL,
/// key and model, speaking the protocol the table names (OpenAI-compatible when
/// it names none); the capabilities the table states win over the protocol
/// defaults, those it leaves out come from them.
pub proof fn law_custom_table_registers(
    m: Map<Seq<char>, ProviderView>,
    name: Seq<char>,
    cfg: ProviderTomlConfig,
    protocol: ProtocolType,
    url: String,
    c: ModelCapabilities,
)
    requires
        !m.contains_key(name),
        spec_name_valid(name),
        custom_protocol(cfg.protocol) == Ok::<ProtocolType, Seq<char>>(protocol),
        cfg.base_url == Some(url),
    ensures
        custom_step(m, name, cfg) matches Ok(m2) && m2.contains_key(name) && {
            let q = m2[name];
            let d = spec_protocol_defaults(protocol);
            &&& q.name == name && q.base_url == url@ && !q.is_builtin && q.protocol == protocol
            &&& q.api_key == opt_seq(cfg.api_key) && q.default_model == opt_seq(cfg.model)
            &&& cfg.capabilities is None ==> q.capabilities == d
            &&& cfg.capabilities == Some(c) ==> {
                &&& q.capabilities.context_window == (if c.context_window is Some {
                    c.context_window
                } else {
                    d.context_window
                })
                &&& q.capabilities.max_output == (if c.max_output is Some {
                    c.max_output
                } else {
                    d.max_output
                })
                &&& q.capabilities.supports_tools == (if c.supports_tools is Some {
                    c.supports_tools
                } else {
                    d.supports_tools
                })
                &&& q.capabilities.supports_reasoning == (if c.supports_reasoning is Some {
                    c.supports_reasoning
                } else {
                    d.supports_reasoning
                })
                &&& q.capabilities.thinking_supported == (if c.thinking_supported is Some {
                    c.thinking_supported
                } else {
                    d.thinking_supported
                })
            }
        },
        cfg.protocol is None ==> protocol == ProtocolType::OpenaiCompatible,
        parse_protocol("openai_compatible"@) == Some(ProtocolType::OpenaiCompatible),
        parse_protocol("anthropic_messages"@) == Some(ProtocolType::AnthropicMessages),
        parse_protocol("google_gemini"@) == Some(ProtocolType::GoogleGemini),
{
    reveal_strlit("openai_compatible");
    reveal_strlit("anthropic_messages");
    reveal_strlit("google_gemini");
    assert("anthropic_messages"@ != "openai_compatible"@) by {
        assert("anthropic_messages"@[0] != "openai_compatible"@[0]);
    }
    assert("google_gemini"@ != "openai_compatible"@) by {
        assert("google_gemini"@[0] != "openai_compatible"@[0]);
    }
    assert("google_gemini"@ != "anthropic_messages"@) by {
        assert("google_gemini"@[0] != "anthropic_messages"@[0]);
    }
}

/// A builtin provider's own configuration section: one that sets no key, base
/// URL or model leaves the provider as it is; otherwise the key, base URL and
/// model it sets replace the provider's, those it leaves out stay, and the
/// capabilities are kept.
pub proof fn law_section_applied(p: ProviderView, pc: ProviderConfig)
    ensures
        pc.api_key is None && pc.base_url is None && pc.model is None ==> section_applied(p, pc)
            == p,
        !(pc.api_key is None && pc.base_url is None && pc.model is None) ==> {
            let q = section_applied(p, pc);
            &&& q.api_key == (match pc.api_key {
                Some(k) => Some(k@),
                None => p.api_key,
            })
            &&& q.base_url == (match pc.base_url {
                Some(u) => u@,
                None => p.base_url,
            })
            &&& q.default_model == (match pc.model {
                Some(md) => Some(md@),
                None => p.default_model,
            })
            &&& q.capabilities == p.capabilities
            &&& q.name == p.name && q.protocol == p.protocol && q.is_builtin == p.is_builtin
        },
{
}

/// A fresh registry holds exactly the ten builtin providers, each builtin,
/// OpenAI-compatible, without a key, extra headers or overrides, and able to
/// call tools and stream; `deepseek` defaults to `deepseek-v4-pro` with a
/// 1,000,000-token window, a 384,000-token limit, thinking, reasoning and cache
/// telemetry, and `ollama` has an 8,192-token window.
pub proof fn law_fresh_registry(k: Seq<char>)
    ensures
        builtin_map().dom() == builtin_names_spec().to_set(),
        builtin_map().contains_key(k) ==> {
            let p = builtin_map()[k];
            &&& p.name == k && p.is_builtin && p.api_key is None
            &&& p.protocol == ProtocolType::OpenaiCompatible
            &&& p.http_headers == Map::<String, String>::empty()
            &&& p.overridden_fields.len() == 0
            &&& p.capabilities.supports_tools == Some(true)
            &&& p.capabilities.supports_streaming == Some(true)
        },
        ({
            let d = builtin_map()["deepseek"@];
            &&& builtin_map().contains_key("deepseek"@)
            &&& d.default_model == Some("deepseek-v4-pro"@)
            &&& d.capabilities.context_window == Some(1_000_000u32)
            &&& d.capabilities.max_output == Some(384_000u32)
            &&& d.capabilities.thinking_supported == Some(true)
            &&& d.capabilities.supports_reasoning == Some(true)
            &&& d.capabilities.cache_telemetry_supported == Some(true)
        }),
        builtin_map().contains_key("ollama"@) && builtin_map()["ollama"@].capabilities.context_window
            == Some(8_192u32),
{
    lemma_builtin_spec_at(0);
    lemma_builtin_spec_at(9);
    let s = builtin_names_spec();
    assert(s[0] == "deepseek"@);
    assert(s[9] == "ollama"@);
    assert(builtin_map().dom() =~= s.to_set());
    if builtin_map().contains_key(k) {
        let j = choose|j: int| 0 <= j < s.len() && s[j] == k;
        lemma_builtin_spec_at(j);
    }
}

/// What a successful `register` stores is what `get` then reads back under
/// the entry's name, and every other provider is left as it was.
pub proof fn law_register_then_get(m: Map<Seq<char>, ProviderView>, e: ProviderEntry, other: Seq<char>)
    requires
        register_error(m, e) is None,
    ensures
        m.insert(e.name@, entry_view(e)).contains_key(e.name@),
        m.insert(e.name@, entry_view(e))[e.name@] == entry_view(e),
        other != e.name@ ==> m.insert(e.name@, entry_view(e)).contains_key(other)
            == m.contains_key(other),
        other != e.name@ && m.contains_key(other) ==> m.insert(e.name@, entry_view(e))[other]
            == m[other],
{
}

/// A name that is already registered cannot be registered again.
pub proof fn law_register_existing_refused(m: Map<Seq<char>, ProviderView>, e: ProviderEntry)
    requires
        m.contains_key(e.name@),
    ensures
        register_error(m, e) == Some(err_view(RegistryErrorKind::AlreadyExists, e.name@)),
{
}

/// Registering a user-defined provider and then unregistering it gives back
/// the registry as it was.
pub proof fn law_register_then_unregister(m: Map<Seq<char>, ProviderView>, e: ProviderEntry)
    requires
        register_error(m, e) is None,
    ensures
        !entry_view(e).is_builtin,
        m.insert(e.name@, entry_view(e)).remove(e.name@) == m,
{
    assert(m.insert(e.name@, entry_view(e)).remove(e.name@) =~= m);
}

/// A registered provider's name is a valid provider name: it is 1 to 63
/// lower-case letters, digits or hyphens and starts with a letter.
pub proof fn law_registered_names_valid(m: Map<Seq<char>, ProviderView>, e: ProviderEntry)
    requires
        register_error(m, e) is None,
    ensures
        1 <= e.name@.len() <= 63,
        is_ascii_alpha(e.name@[0]),
        forall|i: int| 0 <= i < e.name@.len() ==> is_name_char(#[trigger] e.name@[i]),
{
}


/// The builtin sections of the configuration with the providers they
/// belong to, in the order in which they are applied.
pub open spec fn config_sections(c: ProvidersConfig) -> Seq<(Seq<char>, ProviderConfig)> {
    seq![
        ("deepseek"@, c.deepseek),
        ("deepseek-cn"@, c.deepseek_cn),
        ("nvidia-nim"@, c.nvidia_nim),
        ("openai"@, c.openai),
        ("openrouter"@, c.openrouter),
        ("novita"@, c.novita),
        ("fireworks"@, c.fireworks),
        ("sglang"@, c.sglang),
        ("vllm"@, c.vllm),
        ("ollama"@, c.ollama),
    ]
}

/// Sections applied in order.
pub open spec fn apply_sections(
    m: Map<Seq<char>, ProviderView>,
    ps: Seq<(Seq<char>, ProviderConfig)>,
) -> Map<Seq<char>, ProviderView>
    decreases ps.len(),
{
    if ps.len() == 0 {
        m
    } else {
        apply_provider_config(apply_sections(m, ps.drop_last()), ps.last().0, ps.last().1)
    }
}

/// A builtin provider after its configuration section: unchanged unless the
/// section sets a key, a base URL or a model, and otherwise overridden by the
/// section's key, base URL, model and headers, its capabilities kept.
pub open spec fn section_applied(p: ProviderView, pc: ProviderConfig) -> ProviderView {
    if pc.api_key is None && pc.base_url is None && pc.model is None {
        p
    } else {
        override_view(
            p,
            opt_seq(pc.api_key),
            opt_seq(pc.base_url),
            opt_seq(pc.model),
            opt_map(pc.http_headers),
            None,
        )
    }
}

proof fn lemma_config_sections(c: ProvidersConfig, m: Map<Seq<char>, ProviderView>)
    ensures
        spec_load_providers_config(m, c) == apply_sections(m, config_sections(c)),
        config_sections(c).len() == 10,
        forall|i: int| 0 <= i < 10 ==> is_builtin_name(#[trigger] config_sections(c)[i].0),
        forall|i: int, j: int|
            0 <= i < 10 && 0 <= j < 10 && i != j ==> #[trigger] config_sections(c)[i].0
                != #[trigger] config_sections(c)[j].0,
{
    let ps = config_sections(c);
    assert(ps.drop_last().drop_last().drop_last().drop_last().drop_last().drop_last().drop_last().drop_last().drop_last().drop_last() =~= Seq::<(Seq<char>, ProviderConfig)>::empty());
    reveal_with_fuel(apply_sections, 11);
    assert(ps.drop_last() =~= ps.take(9));
    assert(ps.take(9).drop_last() =~= ps.take(8));
    assert(ps.take(8).drop_last() =~= ps.take(7));
    assert(ps.take(7).drop_last() =~= ps.take(6));
    assert(ps.take(6).drop_last() =~= ps.take(5));
    assert(ps.take(5).drop_last() =~= ps.take(4));
    assert(ps.take(4).drop_last() =~= ps.take(3));
    assert(ps.take(3).drop_last() =~= ps.take(2));
    assert(ps.take(2).drop_last() =~= ps.take(1));
    assert(ps.take(1).drop_last() =~= ps.take(0));
    assert(spec_load_providers_config(m, c) == apply_sections(m, ps));
    lemma_builtin_names_distinct();
    lemma_builtin_names_contains();
    let s = builtin_names_spec();
    let perm = seq![0int, 1int, 4int, 2int, 3int, 5int, 6int, 7int, 8int, 9int];
    assert forall|i: int| 0 <= i < 10 implies #[trigger] ps[i].0 == s[perm[i]] by {
        assert(s[0] == "deepseek"@);
        assert(s[1] == "deepseek-cn"@);
        assert(s[2] == "openai"@);
        assert(s[3] == "openrouter"@);
        assert(s[4] == "nvidia-nim"@);
        assert(s[5] == "novita"@);
        assert(s[6] == "fireworks"@);
        assert(s[7] == "sglang"@);
        assert(s[8] == "vllm"@);
        assert(s[9] == "ollama"@);
    }
    assert forall|i: int| 0 <= i < 10 implies is_builtin_name(#[trigger] ps[i].0) by {
        assert(ps[i].0 == s[perm[i]]);
        assert(s.contains(s[perm[i]]));
    }
    assert forall|i: int, j: int| 0 <= i < 10 && 0 <= j < 10 && i != j implies #[trigger] ps[i].0
        != #[trigger] ps[j].0 by {
        assert(ps[i].0 == s[perm[i]]);
        assert(ps[j].0 == s[perm[j]]);
    }
}

proof fn lemma_apply_sections(
    m: Map<Seq<char>, ProviderView>,
    ps: Seq<(Seq<char>, ProviderConfig)>,
    k: Seq<char>,
)
    requires
        forall|i: int| 0 <= i < ps.len() ==> m.contains_key(#[trigger] ps[i].0),
        forall|i: int, j: int|
            0 <= i < ps.len() && 0 <= j < ps.len() && i != j ==> #[trigger] ps[i].0
                != #[trigger] ps[j].0,
    ensures
        apply_sections(m, ps).dom() == m.dom(),
        (forall|i: int| 0 <= i < ps.len() ==> k != #[trigger] ps[i].0) && m.contains_key(k)
            ==> apply_sections(m, ps)[k] == m[k],
        forall|i: int|
            0 <= i < ps.len() && k == #[trigger] ps[i].0 ==> apply_sections(m, ps)[k]
                == section_applied(m[k], ps[i].1),
    decreases ps.len(),
{
    if ps.len() > 0 {
        let q = ps.drop_last();
        assert forall|i: int| 0 <= i < q.len() implies m.contains_key(#[trigger] q[i].0) by {
            assert(q[i] == ps[i]);
        }
        assert forall|i: int, j: int| 0 <= i < q.len() && 0 <= j < q.len() && i != j implies #[trigger] q[i].0
            != #[trigger] q[j].0 by {
            assert(q[i] == ps[i]);
            assert(q[j] == ps[j]);
        }
        lemma_apply_sections(m, q, k);
        let prev = apply_sections(m, q);
        let last = ps.last();
        assert(m.contains_key(ps[ps.len() - 1].0));
        assert(apply_sections(m, ps).dom() =~= m.dom());
        if k == last.0 {
            assert forall|i: int| 0 <= i < q.len() implies k != #[trigger] q[i].0 by {
                assert(q[i] == ps[i]);
                assert(ps[i].0 != ps[ps.len() - 1].0);
            }
        } else {
            assert forall|i: int| 0 <= i < ps.len() && k == #[trigger] ps[i].0 implies i < q.len()
                && k == q[i].0 by {
                assert(q[i] == ps[i]);
            }
        }
    }
}

/// Loading the builtin sections of the configuration treats each builtin
/// provider by its own section alone (a section that sets no key, base URL
/// or model changes nothing, even when it sets headers), keeps every
/// provider's capabilities, and leaves user-defined providers and the set of
/// providers as they are.
pub proof fn law_load_providers_config(m: Map<Seq<char>, ProviderView>, c: ProvidersConfig, k: Seq<char>)
    requires
        builtin_inv(m),
    ensures
        spec_load_providers_config(m, c).dom() == m.dom(),
        !is_builtin_name(k) && m.contains_key(k) ==> spec_load_providers_config(m, c)[k] == m[k],
        forall|i: int|
            0 <= i < 10 && k == #[trigger] config_sections(c)[i].0 ==> spec_load_providers_config(m, c)[k]
                == section_applied(m[k], config_sections(c)[i].1),
        m.contains_key(k) ==> spec_load_providers_config(m, c)[k].capabilities == m[k].capabilities,
{
    lemma_config_sections(c, m);
    let ps = config_sections(c);
    assert forall|i: int| 0 <= i < ps.len() implies m.contains_key(#[trigger] ps[i].0) by {
        assert(is_builtin_name(ps[i].0));
    }
    lemma_apply_sections(m, ps, k);
    if !is_builtin_name(k) {
        assert forall|i: int| 0 <= i < ps.len() implies k != #[trigger] ps[i].0 by {
            assert(is_builtin_name(ps[i].0));
        }
    }
    if exists|i: int| 0 <= i < 10 && k == #[trigger] ps[i].0 {
        let i = choose|i: int| 0 <= i < 10 && k == #[trigger] ps[i].0;
        assert(spec_load_providers_config(m, c)[k] == section_applied(m[k], ps[i].1));
    }
}


/// A table is refused when it names a builtin provider and also sets a
/// protocol, when it names an unknown protocol, or when its user-defined
/// provider (with a protocol and base URL in order) is already registered or
/// has an invalid name.
pub proof fn law_custom_table_refusals(m: Map<Seq<char>, ProviderView>, name: Seq<char>, cfg: ProviderTomlConfig)
    ensures
        m.contains_key(name) && m[name].is_builtin && cfg.protocol is Some ==> custom_step(m, name, cfg)
            == Err::<Map<Seq<char>, ProviderView>, ErrorView>(
            err_view(RegistryErrorKind::BuiltinProtocolConflict, name),
        ),
        !(m.contains_key(name) && m[name].is_builtin) && (cfg.protocol matches Some(p) && parse_protocol(
            p@,
        ) is None) ==> (custom_step(m, name, cfg) matches Err(e) && e.kind
            == RegistryErrorKind::UnknownProtocol),
        !(m.contains_key(name) && m[name].is_builtin) && custom_protocol(cfg.protocol) is Ok
            && cfg.base_url is Some && (m.contains_key(name) || !spec_name_valid(name)) ==> custom_step(
            m,
            name,
            cfg,
        ) is Err,
{
}

/// Loading user tables stops at the first table that is refused: the result
/// is that table's refusal, with the tables before it applied and nothing
/// after it.
pub proof fn law_custom_fold_first_refusal(
    m: Map<Seq<char>, ProviderView>,
    es: Seq<(String, ProviderTomlConfig)>,
    j: int,
    e: ErrorView,
)
    requires
        0 <= j < es.len(),
        custom_fold(m, es.take(j)).1 is None,
        custom_step(custom_fold(m, es.take(j)).0, es[j].0@, es[j].1) == Err::<
            Map<Seq<char>, ProviderView>,
            ErrorView,
        >(e),
    ensures
        custom_fold(m, es) == (custom_fold(m, es.take(j)).0, Some(e)),
{
    assert(es.take(j + 1).drop_last() =~= es.take(j));
    assert(es.take(j + 1).last() == es[j]);
    assert(custom_fold(m, es.take(j + 1)) == (custom_fold(m, es.take(j)).0, Some(e)));
    lemma_custom_fold_stops(m, es, j + 1, es.len() as int);
    assert(es.take(es.len() as int) =~= es);
}

} // verus!
