# deepseek_tui provider layer

The model-provider layer of a terminal chat client, written in Verus: the
registry of builtin and user-defined providers, capability resolution and
request filtering, the per-protocol request plumbing (OpenAI-compatible,
Anthropic Messages, Google Gemini), the wire conversions and stream decoders
of the Anthropic and Gemini clients, and the state and key handling of the
`/provider` picker, and the editing of the TOML configuration. The laws of
the library are public proof functions named `law_*`.

Verus proves every function in `src/` against its contract, except the
trusted items below, whose contracts it takes on trust because they make a
call into `std` or an outside crate:

- `text::push_char` (`String::push`), `text::pop_char` (`String::pop`);
- `framing::utf8_lossy` (`String::from_utf8_lossy`), with the name
  `spec_utf8_lossy` for its result;
- `gemini::random_uuid_hex` (`uuid::Uuid::new_v4().as_simple()`);
- `protocol_adapter::new_header_map`, `insert_header`, `header_name_valid`,
  `header_value_valid` (`reqwest::header`), with the name
  `header_map_contents` for what a header map holds;
- `config_edit::toml_string`, `parse_toml`, `print_toml` (`toml`), with the
  names `spec_toml_string`, `spec_parse_toml` and `spec_print_toml`;
- the contract of `<serde_json::Value as Clone>::clone`, and the declarations
  of the outside types `serde_json::Value`, `HeaderMap`, `HeaderValue`,
  `toml::Value`, `toml::de::Error` and `toml::ser::Error`.

Layout:

- `src/text.rs` — character-level string helpers specified over `Seq<char>`.
- `src/models.rs`, `src/config.rs` — capability records, the chat data model,
  provider identities and configuration records.
- `src/capability_bridge.rs`, `src/capability_filter.rs` — the three-tier
  capability merge and the request filter.
- `src/provider_registry.rs` — the registry, kept sorted by name, with the
  builtin table and the loading of configuration tables.
- `src/protocol_adapter.rs` — endpoints, authentication headers and the
  forwarding rule for configured headers.
- `src/client/` — Anthropic and Gemini request/response conversion, stream
  event state machines, and line / server-sent-event / NDJSON framing.
- `src/provider_picker.rs` — the picker's state machine and display text.
- `src/config_edit.rs` — adding a provider to the configuration text.
- `app/` — the unverified shell: HTTP with `reqwest`, JSON values, reading
  and writing the configuration file, and the `ratatui` / `crossterm` widgets.
- `tests/` — tests of the library on concrete values.
