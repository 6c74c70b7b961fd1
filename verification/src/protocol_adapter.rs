//! Per-protocol request plumbing: endpoint URLs, authentication headers and
//! the rule for which configured extra headers may be sent.
use vstd::prelude::*;

use crate::config::ProtocolType;
use crate::text::{append_str, ascii_lower, chars_of, string_from_chars, str_eq, to_ascii_lowercase};
use reqwest::header::HeaderMap;
use crate::client::fields::clone_opt;
use crate::models::{opt_chars, MessageRequest};

verus! {

/// An HTTP header map (`reqwest::header::HeaderMap`).
#[verifier::external_type_specification]
#[verifier::external_body]
#[verifier::reject_recursive_types(T)]
pub struct ExHeaderMap<T>(reqwest::header::HeaderMap<T>);

/// An HTTP header value (`reqwest::header::HeaderValue`).
#[verifier::external_type_specification]
#[verifier::external_body]
pub struct ExHeaderValue(reqwest::header::HeaderValue);

/// What a header map holds: for each (lower-case) header name, its values in order.
pub uninterp spec fn header_map_contents(m: HeaderMap) -> Map<Seq<char>, Seq<Seq<char>>>;

/// The characters `HeaderName::from_bytes` accepts (the RFC 7230 token characters).
pub open spec fn is_token_char(c: char) -> bool {
    ||| ('a' <= c && c <= 'z')
    ||| ('A' <= c && c <= 'Z')
    ||| ('0' <= c && c <= '9')
    ||| c == '!' || c == '#' || c == '$' || c == '%' || c == '&' || c == '\''
    ||| c == '*' || c == '+' || c == '-' || c == '.' || c == '^' || c == '_'
    ||| c == '`' || c == '|' || c == '~'
}

/// Whether `HeaderName::from_bytes` accepts the bytes of this string: between
/// one and 65535 token characters.
pub open spec fn header_name_ok(s: Seq<char>) -> bool {
    &&& 1 <= s.len() <= 65535
    &&& forall|i: int| 0 <= i < s.len() ==> is_token_char(#[trigger] s[i])
}

/// The characters whose UTF-8 bytes `HeaderValue::from_str` accepts: a tab,
/// or anything from the space up other than DEL.
pub open spec fn is_header_value_char(c: char) -> bool {
    c == '\t' || (' ' <= c && c != '\u{7f}')
}

/// Whether `HeaderValue::from_str` accepts this string.
pub open spec fn header_value_ok(s: Seq<char>) -> bool {
    forall|i: int| 0 <= i < s.len() ==> is_header_value_char(#[trigger] s[i])
}

/// No headers at all.
pub open spec fn no_headers() -> Map<Seq<char>, Seq<Seq<char>>> {
    Map::empty()
}

/// `HeaderMap::new`: an empty map.
#[verifier::external_body]
fn new_header_map() -> (r: HeaderMap)
    ensures
        header_map_contents(r) == no_headers(),
{
    HeaderMap::new()
}

/// `HeaderMap::insert` of `HeaderName::from_static(name)` and
/// `HeaderValue::from_str(value)`: the name's earlier values are replaced by
/// this one. `from_static` panics on a name that is not a lower-case token and
/// `from_str` fails on a value with a control character, so both are required;
/// `insert` panics only near 32768 entries.
#[verifier::external_body]
fn insert_header(m: &mut HeaderMap, name: &'static str, value: &str)
    requires
        header_name_ok(name@),
        ascii_lower(name@) == name@,
        header_value_ok(value@),
        header_map_contents(*old(m)).dom().len() < 1024,
    ensures
        header_map_contents(*final(m)) == header_map_contents(*old(m)).insert(name@, seq![value@]),
{
    m.insert(
        reqwest::header::HeaderName::from_static(name),
        reqwest::header::HeaderValue::from_str(value).unwrap(),
    );
}

/// Whether `HeaderName::from_bytes` accepts the bytes of `name`.
#[verifier::external_body]
fn header_name_valid(name: &str) -> (r: bool)
    ensures
        r == header_name_ok(name@),
{
    reqwest::header::HeaderName::from_bytes(name.as_bytes()).is_ok()
}

/// Whether `HeaderValue::from_str` accepts `value`.
#[verifier::external_body]
fn header_value_valid(value: &str) -> (r: bool)
    ensures
        r == header_value_ok(value@),
{
    reqwest::header::HeaderValue::from_str(value).is_ok()
}

/// The headers the adapters set themselves, which configured extra headers
/// may not replace (compared without regard to ASCII case).
pub open spec fn spec_is_protected_header(name: Seq<char>) -> bool {
    ascii_lower(name) == "authorization"@ || ascii_lower(name) == "content-type"@
}

pub fn is_protected_header(name: &str) -> (r: bool)
    ensures
        r == spec_is_protected_header(name@),
{
    let lower = to_ascii_lowercase(name);
    str_eq(lower.as_str(), "authorization") || str_eq(lower.as_str(), "content-type")
}

/// A configured extra header is sent when it is not protected and both its
/// name and its value are valid in an HTTP header; otherwise it is skipped.
pub open spec fn spec_header_forwarded(name: Seq<char>, value: Seq<char>) -> bool {
    !spec_is_protected_header(name) && header_name_ok(name) && header_value_ok(value)
}

pub fn header_forwarded(name: &str, value: &str) -> (r: bool)
    ensures
        r == spec_header_forwarded(name@, value@),
{
    !is_protected_header(name) && header_name_valid(name) && header_value_valid(value)
}

/// `s` without its trailing `/` characters (`trim_end_matches('/')`).
pub open spec fn strip_trailing_slashes(s: Seq<char>) -> Seq<char>
    decreases s.len(),
{
    if s.len() > 0 && s.last() == '/' {
        strip_trailing_slashes(s.drop_last())
    } else {
        s
    }
}

pub fn trim_trailing_slashes(s: &str) -> (r: String)
    ensures
        r@ == strip_trailing_slashes(s@),
{
    let v = chars_of(s);
    let mut b: usize = v.len();
    proof {
        assert(v@.take(b as int) =~= v@);
    }
    while b > 0 && v[b - 1] == '/'
        invariant
            v@ == s@,
            b <= v@.len(),
            strip_trailing_slashes(s@) == strip_trailing_slashes(v@.take(b as int)),
        decreases b,
    {
        assert(v@.take(b as int).drop_last() =~= v@.take(b - 1));
        b = b - 1;
    }
    let mut out: Vec<char> = Vec::new();
    let mut i: usize = 0;
    while i < b
        invariant
            v@ == s@,
            i <= b <= v@.len(),
            out@ == v@.take(i as int),
        decreases b - i,
    {
        out.push(v[i]);
        i = i + 1;
        assert(out@ =~= v@.take(i as int));
    }
    string_from_chars(&out)
}

/// The endpoint of a request, by protocol.
pub open spec fn spec_endpoint(
    protocol: ProtocolType,
    base_url: Seq<char>,
    model: Seq<char>,
    api_key: Option<Seq<char>>,
    stream: bool,
) -> Seq<char> {
    let base = strip_trailing_slashes(base_url);
    match protocol {
        ProtocolType::OpenaiCompatible => base + "/chat/completions"@,
        ProtocolType::AnthropicMessages => base + "/v1/messages"@,
        ProtocolType::GoogleGemini => base + "/v1beta/models/"@ + model + (if stream {
            ":streamGenerateContent"@
        } else {
            ":generateContent"@
        }) + match api_key {
            Some(k) => "?key="@ + k,
            None => Seq::empty(),
        },
    }
}

/// The headers an adapter authenticates with, by protocol.
pub open spec fn spec_auth_headers(protocol: ProtocolType, api_key: Seq<char>) -> Map<
    Seq<char>,
    Seq<Seq<char>>,
> {
    match protocol {
        ProtocolType::OpenaiCompatible => map!["authorization"@ => seq!["Bearer "@ + api_key]],
        ProtocolType::AnthropicMessages => map![
            "x-api-key"@ => seq![api_key],
            "anthropic-version"@ => seq!["2023-06-01"@],
        ],
        ProtocolType::GoogleGemini => Map::empty(),
    }
}

/// The headers sent with a request: the authentication headers when there is
/// a key, none otherwise.
pub open spec fn spec_request_auth_headers(protocol: ProtocolType, api_key: Option<Seq<char>>) -> Map<
    Seq<char>,
    Seq<Seq<char>>,
> {
    match api_key {
        Some(k) => spec_auth_headers(protocol, k),
        None => Map::empty(),
    }
}

/// Whether an adapter can put this key in its authentication headers (an
/// invalid header value would make it panic).
pub open spec fn auth_key_ok(protocol: ProtocolType, api_key: Seq<char>) -> bool {
    protocol == ProtocolType::GoogleGemini || header_value_ok(api_key)
}

proof fn lemma_bearer_value_ok(api_key: Seq<char>)
    requires
        header_value_ok(api_key),
    ensures
        header_value_ok("Bearer "@ + api_key),
{
    reveal_strlit("Bearer ");
    assert forall|i: int| 0 <= i < ("Bearer "@ + api_key).len() implies is_header_value_char(
        #[trigger] ("Bearer "@ + api_key)[i],
    ) by {
        if i >= 7 {
            assert(("Bearer "@ + api_key)[i] == api_key[i - 7]);
        }
    }
}

fn build_url(base_url: &str, suffix: &str) -> (r: String)
    ensures
        r@ == strip_trailing_slashes(base_url@) + suffix@,
{
    let mut url = trim_trailing_slashes(base_url);
    append_str(&mut url, suffix);
    url
}

/// The adapter for OpenAI-compatible chat completions.
pub struct OpenAiCompatibleAdapter;

/// The adapter for the Anthropic Messages API.
pub struct AnthropicMessagesAdapter;

/// The adapter for the Google Gemini API.
pub struct GoogleGeminiAdapter;

impl OpenAiCompatibleAdapter {
    pub fn protocol_type(&self) -> (r: ProtocolType)
        ensures
            r == ProtocolType::OpenaiCompatible,
    {
        ProtocolType::OpenaiCompatible
    }

    /// `Authorization: Bearer <key>`.
    pub fn build_auth_headers(&self, api_key: &str) -> (r: HeaderMap)
        requires
            header_value_ok(api_key@),
        ensures
            header_map_contents(r) == spec_auth_headers(ProtocolType::OpenaiCompatible, api_key@),
    {
        let mut headers = new_header_map();
        let mut value = "Bearer ".to_owned();
        append_str(&mut value, api_key);
        proof {
            lemma_bearer_value_ok(api_key@);
            reveal_strlit("authorization");
            assert(ascii_lower("authorization"@) =~= "authorization"@);
        }
        insert_header(&mut headers, "authorization", value.as_str());
        proof {
            assert(header_map_contents(headers) =~= spec_auth_headers(
                ProtocolType::OpenaiCompatible,
                api_key@,
            ));
        }
        headers
    }

    /// `<base>/chat/completions`, the base taken without trailing slashes.
    pub fn endpoint(&self, base_url: &str) -> (r: String)
        ensures
            r@ == spec_endpoint(ProtocolType::OpenaiCompatible, base_url@, Seq::empty(), None, false),
    {
        build_url(base_url, "/chat/completions")
    }
}

/// The fields of a chat-completions body that the request supplies by
/// itself; the chat messages and tools, converted by the chat client, go
/// beside them. A field that is `None` is left out of the body; when `stream`
/// holds the body also carries `"stream": true` and
/// `"stream_options": {"include_usage": true}`. `temperature` and `top_p` hold
/// `f32` bit patterns.
#[derive(Clone, Debug)]
pub struct ChatBodyFields {
    pub model: String,
    pub max_tokens: u32,
    pub stream: bool,
    pub tool_choice: Option<serde_json::Value>,
    pub temperature: Option<u32>,
    pub top_p: Option<u32>,
    pub thinking: Option<serde_json::Value>,
    pub reasoning_effort: Option<String>,
}

impl OpenAiCompatibleAdapter {
    /// The request's own fields of a chat-completions body: the model, the
    /// output limit, the streaming flag, and the tool choice, sampling
    /// settings, thinking settings and reasoning effort as the request has them.
    pub fn chat_body_fields(&self, request: &MessageRequest, stream: bool) -> (r: ChatBodyFields)
        ensures
            r.model@ == request.model@,
            r.max_tokens == request.max_tokens,
            r.stream == stream,
            r.tool_choice == request.tool_choice,
            r.temperature == request.temperature,
            r.top_p == request.top_p,
            r.thinking == request.thinking,
            opt_chars(r.reasoning_effort) == opt_chars(request.reasoning_effort),
    {
        ChatBodyFields {
            model: request.model.clone(),
            max_tokens: request.max_tokens,
            stream,
            tool_choice: match &request.tool_choice {
                Some(v) => Some(v.clone()),
                None => None,
            },
            temperature: request.temperature,
            top_p: request.top_p,
            thinking: match &request.thinking {
                Some(v) => Some(v.clone()),
                None => None,
            },
            reasoning_effort: clone_opt(&request.reasoning_effort),
        }
    }
}

impl AnthropicMessagesAdapter {
    pub fn protocol_type(&self) -> (r: ProtocolType)
        ensures
            r == ProtocolType::AnthropicMessages,
    {
        ProtocolType::AnthropicMessages
    }

    /// `x-api-key: <key>` and `anthropic-version: 2023-06-01`.
    pub fn build_auth_headers(&self, api_key: &str) -> (r: HeaderMap)
        requires
            header_value_ok(api_key@),
        ensures
            header_map_contents(r) == spec_auth_headers(ProtocolType::AnthropicMessages, api_key@),
    {
        let mut headers = new_header_map();
        proof {
            reveal_strlit("x-api-key");
            reveal_strlit("anthropic-version");
            reveal_strlit("2023-06-01");
            assert(ascii_lower("x-api-key"@) =~= "x-api-key"@);
            assert(ascii_lower("anthropic-version"@) =~= "anthropic-version"@);
        }
        insert_header(&mut headers, "x-api-key", api_key);
        insert_header(&mut headers, "anthropic-version", "2023-06-01");
        proof {
            assert(header_map_contents(headers) =~= spec_auth_headers(
                ProtocolType::AnthropicMessages,
                api_key@,
            ));
        }
        headers
    }

    /// `<base>/v1/messages`, the base taken without trailing slashes.
    pub fn endpoint(&self, base_url: &str) -> (r: String)
        ensures
            r@ == spec_endpoint(ProtocolType::AnthropicMessages, base_url@, Seq::empty(), None, false),
    {
        build_url(base_url, "/v1/messages")
    }
}

impl GoogleGeminiAdapter {
    pub fn protocol_type(&self) -> (r: ProtocolType)
        ensures
            r == ProtocolType::GoogleGemini,
    {
        ProtocolType::GoogleGemini
    }

    /// Gemini takes the key in the URL: no headers.
    pub fn build_auth_headers(&self, _api_key: &str) -> (r: HeaderMap)
        ensures
            header_map_contents(r) == spec_auth_headers(ProtocolType::GoogleGemini, _api_key@),
    {
        new_header_map()
    }

    /// `<base>/v1beta/models/<model>:generateContent` (or
    /// `:streamGenerateContent`), with `?key=<key>` when there is a key.
    pub fn endpoint(&self, base_url: &str, model: &str, api_key: Option<&str>, stream: bool) -> (r:
        String)
        ensures
            r@ == spec_endpoint(
                ProtocolType::GoogleGemini,
                base_url@,
                model@,
                match api_key {
                    Some(k) => Some(k@),
                    None => None,
                },
                stream,
            ),
    {
        let mut url = trim_trailing_slashes(base_url);
        append_str(&mut url, "/v1beta/models/");
        append_str(&mut url, model);
        if stream {
            append_str(&mut url, ":streamGenerateContent");
        } else {
            append_str(&mut url, ":generateContent");
        }
        match api_key {
            Some(k) => {
                append_str(&mut url, "?key=");
                append_str(&mut url, k);
            },
            None => {},
        }
        proof {
            let ghost s = spec_endpoint(
                ProtocolType::GoogleGemini,
                base_url@,
                model@,
                match api_key {
                    Some(k) => Some(k@),
                    None => None,
                },
                stream,
            );
            assert(url@ =~= s);
        }
        url
    }
}

/// One adapter of each protocol, as the factory hands them out.
pub enum ProtocolAdapter {
    OpenAiCompatible(OpenAiCompatibleAdapter),
    AnthropicMessages(AnthropicMessagesAdapter),
    GoogleGemini(GoogleGeminiAdapter),
}

impl ProtocolAdapter {
    pub fn protocol_type(&self) -> (r: ProtocolType)
        ensures
            r == self.spec_protocol(),
    {
        match self {
            ProtocolAdapter::OpenAiCompatible(a) => a.protocol_type(),
            ProtocolAdapter::AnthropicMessages(a) => a.protocol_type(),
            ProtocolAdapter::GoogleGemini(a) => a.protocol_type(),
        }
    }

    pub open spec fn spec_protocol(&self) -> ProtocolType {
        match self {
            ProtocolAdapter::OpenAiCompatible(_) => ProtocolType::OpenaiCompatible,
            ProtocolAdapter::AnthropicMessages(_) => ProtocolType::AnthropicMessages,
            ProtocolAdapter::GoogleGemini(_) => ProtocolType::GoogleGemini,
        }
    }

    pub fn build_auth_headers(&self, api_key: &str) -> (r: HeaderMap)
        requires
            auth_key_ok(self.spec_protocol(), api_key@),
        ensures
            header_map_contents(r) == spec_auth_headers(self.spec_protocol(), api_key@),
    {
        match self {
            ProtocolAdapter::OpenAiCompatible(a) => a.build_auth_headers(api_key),
            ProtocolAdapter::AnthropicMessages(a) => a.build_auth_headers(api_key),
            ProtocolAdapter::GoogleGemini(a) => a.build_auth_headers(api_key),
        }
    }

    /// The authentication headers of a request: none without a key.
    pub fn request_auth_headers(&self, api_key: Option<&str>) -> (r: HeaderMap)
        requires
            api_key matches Some(k) ==> auth_key_ok(self.spec_protocol(), k@),
        ensures
            header_map_contents(r) == spec_request_auth_headers(
                self.spec_protocol(),
                match api_key {
                    Some(k) => Some(k@),
                    None => None,
                },
            ),
    {
        match api_key {
            Some(k) => self.build_auth_headers(k),
            None => new_header_map(),
        }
    }

    /// The URL a request is sent to.
    pub fn endpoint(&self, base_url: &str, model: &str, api_key: Option<&str>, stream: bool) -> (r:
        String)
        ensures
            r@ == spec_endpoint(
                self.spec_protocol(),
                base_url@,
                model@,
                match api_key {
                    Some(k) => Some(k@),
                    None => None,
                },
                stream,
            ),
    {
        match self {
            ProtocolAdapter::OpenAiCompatible(a) => a.endpoint(base_url),
            ProtocolAdapter::AnthropicMessages(a) => a.endpoint(base_url),
            ProtocolAdapter::GoogleGemini(a) => a.endpoint(base_url, model, api_key, stream),
        }
    }
}

/// Hands out the adapter of a protocol.
pub struct ProtocolAdapterFactory;

impl ProtocolAdapterFactory {
    pub fn create(protocol: ProtocolType) -> (r: ProtocolAdapter)
        ensures
            r.spec_protocol() == protocol,
    {
        match protocol {
            ProtocolType::OpenaiCompatible => ProtocolAdapter::OpenAiCompatible(OpenAiCompatibleAdapter),
            ProtocolType::AnthropicMessages => ProtocolAdapter::AnthropicMessages(
                AnthropicMessagesAdapter,
            ),
            ProtocolType::GoogleGemini => ProtocolAdapter::GoogleGemini(GoogleGeminiAdapter),
        }
    }
}


/// Whether a header is protected does not depend on the ASCII case of its name.
pub proof fn law_protected_header_ignores_case(name: Seq<char>)
    ensures
        spec_is_protected_header(name) == spec_is_protected_header(ascii_lower(name)),
{
    assert(ascii_lower(ascii_lower(name)) =~= ascii_lower(name));
}

/// A trailing `/` on the base URL does not change the endpoint.
pub proof fn law_endpoint_ignores_trailing_slash(
    protocol: ProtocolType,
    base_url: Seq<char>,
    model: Seq<char>,
    api_key: Option<Seq<char>>,
    stream: bool,
)
    ensures
        spec_endpoint(protocol, base_url.push('/'), model, api_key, stream) == spec_endpoint(
            protocol,
            base_url,
            model,
            api_key,
            stream,
        ),
{
    assert(base_url.push('/').drop_last() =~= base_url);
}

/// A Gemini request with an API key `k` authenticates by its URL: whether it
/// streams or not, the endpoint is the keyless endpoint followed by `?key=` and
/// `k`, so it ends with exactly those characters; the keyless endpoint is the
/// base URL, `/v1beta/models/`, the model and the method (`:streamGenerateContent`
/// when streaming, `:generateContent` otherwise).
pub proof fn law_gemini_endpoint_key(
    base_url: Seq<char>,
    model: Seq<char>,
    k: Seq<char>,
    stream: bool,
)
    ensures
        spec_endpoint(ProtocolType::GoogleGemini, base_url, model, Some(k), stream)
            == spec_endpoint(ProtocolType::GoogleGemini, base_url, model, None, stream) + "?key="@
            + k,
        ({
            let e = spec_endpoint(ProtocolType::GoogleGemini, base_url, model, Some(k), stream);
            e.len() >= k.len() + 5 && e.subrange(e.len() - k.len() - 5, e.len() as int) == "?key="@
                + k
        }),
        spec_endpoint(ProtocolType::GoogleGemini, base_url, model, None, true)
            == strip_trailing_slashes(base_url) + "/v1beta/models/"@ + model
            + ":streamGenerateContent"@,
        spec_endpoint(ProtocolType::GoogleGemini, base_url, model, None, false)
            == strip_trailing_slashes(base_url) + "/v1beta/models/"@ + model + ":generateContent"@,
{
    reveal_strlit("?key=");
    let e0 = spec_endpoint(ProtocolType::GoogleGemini, base_url, model, None, stream);
    assert(spec_endpoint(ProtocolType::GoogleGemini, base_url, model, Some(k), stream) =~= e0 + (
    "?key="@ + k));
    let e = e0 + ("?key="@ + k);
    assert(e.subrange(e.len() - k.len() - 5, e.len() as int) =~= "?key="@ + k);
}

/// The API key reaches every request that has one: an OpenAI-compatible
/// request carries `authorization: Bearer <key>`, an Anthropic request carries
/// `x-api-key: <key>` with `anthropic-version: 2023-06-01`, and a Gemini request
/// carries no authentication header (its key travels in the URL); without a key
/// no authentication header is sent.
pub proof fn law_key_authenticates(protocol: ProtocolType, k: Seq<char>)
    ensures
        spec_request_auth_headers(ProtocolType::OpenaiCompatible, Some(k)).dom() == set![
            "authorization"@,
        ],
        spec_request_auth_headers(ProtocolType::OpenaiCompatible, Some(k))["authorization"@]
            == seq!["Bearer "@ + k],
        spec_request_auth_headers(ProtocolType::AnthropicMessages, Some(k)).dom() == set![
            "x-api-key"@,
            "anthropic-version"@,
        ],
        spec_request_auth_headers(ProtocolType::AnthropicMessages, Some(k))["x-api-key"@] == seq![
            k,
        ],
        spec_request_auth_headers(ProtocolType::AnthropicMessages, Some(k))["anthropic-version"@]
            == seq!["2023-06-01"@],
        spec_request_auth_headers(ProtocolType::GoogleGemini, Some(k)).dom().is_empty(),
        spec_request_auth_headers(protocol, None).dom().is_empty(),
{
    reveal_strlit("x-api-key");
    reveal_strlit("anthropic-version");
    assert("x-api-key"@ != "anthropic-version"@) by {
        assert("x-api-key"@.len() != "anthropic-version"@.len());
    }
    assert(spec_request_auth_headers(ProtocolType::OpenaiCompatible, Some(k)).dom() =~= set![
        "authorization"@,
    ]);
    assert(spec_request_auth_headers(ProtocolType::AnthropicMessages, Some(k)).dom() =~= set![
        "x-api-key"@,
        "anthropic-version"@,
    ]);
}

/// The OpenAI-compatible endpoint is the base URL (without trailing `/`)
/// followed by `/chat/completions`, the Anthropic one by `/v1/messages`; the
/// model, key and streaming flag do not enter either.
pub proof fn law_fixed_endpoints(
    base_url: Seq<char>,
    model: Seq<char>,
    api_key: Option<Seq<char>>,
    stream: bool,
)
    ensures
        spec_endpoint(ProtocolType::OpenaiCompatible, base_url, model, api_key, stream)
            == strip_trailing_slashes(base_url) + "/chat/completions"@,
        spec_endpoint(ProtocolType::AnthropicMessages, base_url, model, api_key, stream)
            == strip_trailing_slashes(base_url) + "/v1/messages"@,
{
}

/// A protected header is never forwarded, whatever its value.
pub proof fn law_protected_never_forwarded(name: Seq<char>, value: Seq<char>)
    requires
        spec_is_protected_header(name),
    ensures
        !spec_header_forwarded(name, value),
{
}

} // verus!
