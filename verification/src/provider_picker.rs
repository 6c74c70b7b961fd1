//! The provider picker: the state and key handling of the `/provider` modal.
//! Drawing it on the terminal is left to the embedding application.
use vstd::prelude::*;

use crate::config::Config;
use crate::provider_registry::{ProviderRegistry, ProviderView};
use crate::text::{
    append_str, ascii_upper, chars_of, is_whitespace, is_ws, pop_char, push_char,
    remove_whitespace, seq_lt, str_eq, string_from_chars, trim_str, trimmed, upper_char, lead_ws, trail_ws,
    without_ws,
};

verus! {

/// The step the picker is at.
#[derive(Clone, Copy, Debug, PartialEq, Eq, Structural)]
pub enum Stage {
    List,
    KeyEntry,
    ConfirmDelete,
    AddProvider,
}

/// The field being edited in the add-provider form.
#[derive(Clone, Copy, Debug, PartialEq, Eq, Structural)]
pub enum AddField {
    Name,
    BaseUrl,
    Protocol,
    ApiKey,
}

/// A key press, as far as the picker tells keys apart.
#[derive(Clone, Copy, Debug, PartialEq, Eq, Structural)]
pub enum KeyCode {
    Esc,
    Up,
    Down,
    Enter,
    Tab,
    Backspace,
    Delete,
    Char(char),
    Other,
}

/// A key press with the state of the Control modifier.
#[derive(Clone, Copy, Debug, PartialEq, Eq, Structural)]
pub struct KeyEvent {
    pub code: KeyCode,
    pub control: bool,
}

/// What the picker asks the application to do.
#[derive(Clone, Debug)]
pub enum ViewEvent {
    ProviderPickerApplied { provider_name: String },
    ProviderPickerApiKeySubmitted { provider_name: String, api_key: String },
    ProviderPickerDeleteRequested { provider_name: String },
    ProviderPickerAddRequested {
        name: String,
        base_url: String,
        protocol: String,
        api_key: Option<String>,
    },
}

/// The outcome of a key press.
#[derive(Clone, Debug)]
pub enum ViewAction {
    Noop,
    Close,
    EmitAndClose(ViewEvent),
}

/// The kinds of modal views.
#[derive(Clone, Copy, Debug, PartialEq, Eq, Structural)]
pub enum ModalKind {
    ProviderPicker,
}

pub enum ActionView {
    Noop,
    Close,
    Applied(Seq<char>),
    KeySubmitted(Seq<char>, Seq<char>),
    DeleteRequested(Seq<char>),
    AddRequested(Seq<char>, Seq<char>, Seq<char>, Option<Seq<char>>),
}

impl View for ViewAction {
    type V = ActionView;

    open spec fn view(&self) -> ActionView {
        match self {
            ViewAction::Noop => ActionView::Noop,
            ViewAction::Close => ActionView::Close,
            ViewAction::EmitAndClose(e) => match e {
                ViewEvent::ProviderPickerApplied { provider_name } => ActionView::Applied(
                    provider_name@,
                ),
                ViewEvent::ProviderPickerApiKeySubmitted { provider_name, api_key } =>
                    ActionView::KeySubmitted(provider_name@, api_key@),
                ViewEvent::ProviderPickerDeleteRequested { provider_name } =>
                    ActionView::DeleteRequested(provider_name@),
                ViewEvent::ProviderPickerAddRequested { name, base_url, protocol, api_key } =>
                    ActionView::AddRequested(
                        name@,
                        base_url@,
                        protocol@,
                        match api_key {
                            Some(k) => Some(k@),
                            None => None,
                        },
                    ),
            },
        }
    }
}

/// One provider as listed by the picker.
#[derive(Clone, Debug)]
pub struct ProviderRow {
    pub name: String,
    pub display_name: String,
    pub has_key: bool,
    pub is_builtin: bool,
}

pub struct RowView {
    pub name: Seq<char>,
    pub display_name: Seq<char>,
    pub has_key: bool,
    pub is_builtin: bool,
}

impl View for ProviderRow {
    type V = RowView;

    open spec fn view(&self) -> RowView {
        RowView {
            name: self.name@,
            display_name: self.display_name@,
            has_key: self.has_key,
            is_builtin: self.is_builtin,
        }
    }
}

/// The row the picker shows for a provider.
pub open spec fn row_of(p: ProviderView) -> RowView {
    RowView { name: p.name, display_name: p.display_name, has_key: p.api_key is Some, is_builtin: p.is_builtin }
}

/// The number of protocols the add-provider form offers.
pub const PROTOCOL_OPTION_COUNT: usize = 3;

pub open spec fn protocol_option_spec(i: int) -> Seq<char> {
    if i == 0 {
        "openai_compatible"@
    } else if i == 1 {
        "anthropic_messages"@
    } else {
        "google_gemini"@
    }
}

/// The protocols the add-provider form offers, by index.
pub fn protocol_option(i: usize) -> (r: &'static str)
    requires
        i < PROTOCOL_OPTION_COUNT,
    ensures
        r@ == protocol_option_spec(i as int),
{
    if i == 0 {
        "openai_compatible"
    } else if i == 1 {
        "anthropic_messages"
    } else {
        "google_gemini"
    }
}

/// The mathematical state of the picker.
pub struct PickerView {
    pub rows: Seq<RowView>,
    pub active: Seq<char>,
    pub selected: int,
    pub stage: Stage,
    pub key_input: Seq<char>,
    pub add_name: Seq<char>,
    pub add_base_url: Seq<char>,
    pub add_protocol: int,
    pub add_api_key: Seq<char>,
    pub add_field: AddField,
}

/// The picker modal for switching, adding and deleting providers.
pub struct ProviderPickerView {
    providers: Vec<ProviderRow>,
    active_provider: String,
    selected_idx: usize,
    stage: Stage,
    api_key_input: String,
    add_name: String,
    add_base_url: String,
    add_protocol_idx: usize,
    add_api_key: String,
    add_field: AddField,
}

impl View for ProviderPickerView {
    type V = PickerView;

    closed spec fn view(&self) -> PickerView {
        PickerView {
            rows: self.providers@.map_values(|r: ProviderRow| r@),
            active: self.active_provider@,
            selected: self.selected_idx as int,
            stage: self.stage,
            key_input: self.api_key_input@,
            add_name: self.add_name@,
            add_base_url: self.add_base_url@,
            add_protocol: self.add_protocol_idx as int,
            add_api_key: self.add_api_key@,
            add_field: self.add_field,
        }
    }
}

/// The selection is on a row and the protocol choice on an offered protocol.
pub open spec fn picker_wf(s: PickerView) -> bool {
    &&& 0 <= s.selected < s.rows.len()
    &&& 0 <= s.add_protocol < 3
}

pub open spec fn pop_seq(s: Seq<char>) -> Seq<char> {
    if s.len() > 0 {
        s.drop_last()
    } else {
        s
    }
}

pub open spec fn next_field(f: AddField) -> AddField {
    match f {
        AddField::Name => AddField::BaseUrl,
        AddField::BaseUrl => AddField::Protocol,
        AddField::Protocol => AddField::ApiKey,
        AddField::ApiKey => AddField::Name,
    }
}

/// The form with the character removed from the field being edited.
pub open spec fn form_pop(s: PickerView) -> PickerView {
    match s.add_field {
        AddField::Name => PickerView { add_name: pop_seq(s.add_name), ..s },
        AddField::BaseUrl => PickerView { add_base_url: pop_seq(s.add_base_url), ..s },
        AddField::ApiKey => PickerView { add_api_key: pop_seq(s.add_api_key), ..s },
        AddField::Protocol => s,
    }
}

/// The form with a typed character added to the field being edited.
pub open spec fn form_push(s: PickerView, c: char) -> PickerView {
    match s.add_field {
        AddField::Name => PickerView { add_name: s.add_name.push(c), ..s },
        AddField::BaseUrl => PickerView { add_base_url: s.add_base_url.push(c), ..s },
        AddField::ApiKey => if is_ws(c) {
            s
        } else {
            PickerView { add_api_key: s.add_api_key.push(c), ..s }
        },
        AddField::Protocol => s,
    }
}

pub open spec fn spec_list_key(s: PickerView, k: KeyEvent) -> (PickerView, ActionView) {
    let row = s.rows[s.selected];
    match k.code {
        KeyCode::Esc => (s, ActionView::Close),
        KeyCode::Up => (
            PickerView { selected: if s.selected > 0 { s.selected - 1 } else { s.selected }, ..s },
            ActionView::Noop,
        ),
        KeyCode::Down => (
            PickerView {
                selected: if s.selected + 1 < s.rows.len() { s.selected + 1 } else { s.selected },
                ..s
            },
            ActionView::Noop,
        ),
        KeyCode::Enter => if row.has_key {
            (s, ActionView::Applied(row.name))
        } else {
            (PickerView { stage: Stage::KeyEntry, key_input: Seq::empty(), ..s }, ActionView::Noop)
        },
        KeyCode::Delete => if !row.is_builtin {
            (PickerView { stage: Stage::ConfirmDelete, ..s }, ActionView::Noop)
        } else {
            (s, ActionView::Noop)
        },
        KeyCode::Char(c) => if c == 'd' {
            if !row.is_builtin {
                (PickerView { stage: Stage::ConfirmDelete, ..s }, ActionView::Noop)
            } else {
                (s, ActionView::Noop)
            }
        } else if c == 'a' {
            (
                PickerView {
                    stage: Stage::AddProvider,
                    add_name: Seq::empty(),
                    add_base_url: Seq::empty(),
                    add_protocol: 0,
                    add_api_key: Seq::empty(),
                    add_field: AddField::Name,
                    ..s
                },
                ActionView::Noop,
            )
        } else {
            (s, ActionView::Noop)
        },
        _ => (s, ActionView::Noop),
    }
}

pub open spec fn spec_key_entry_key(s: PickerView, k: KeyEvent) -> (PickerView, ActionView) {
    match k.code {
        KeyCode::Esc => (
            PickerView { stage: Stage::List, key_input: Seq::empty(), ..s },
            ActionView::Noop,
        ),
        KeyCode::Backspace => (PickerView { key_input: pop_seq(s.key_input), ..s }, ActionView::Noop),
        KeyCode::Enter => {
            let key = trimmed(s.key_input);
            if key.len() == 0 {
                (s, ActionView::Noop)
            } else {
                (s, ActionView::KeySubmitted(s.rows[s.selected].name, key))
            }
        },
        KeyCode::Char(c) => if c == 'h' && k.control {
            (PickerView { key_input: pop_seq(s.key_input), ..s }, ActionView::Noop)
        } else if !is_ws(c) {
            (PickerView { key_input: s.key_input.push(c), ..s }, ActionView::Noop)
        } else {
            (s, ActionView::Noop)
        },
        _ => (s, ActionView::Noop),
    }
}

pub open spec fn spec_confirm_delete_key(s: PickerView, k: KeyEvent) -> (PickerView, ActionView) {
    match k.code {
        KeyCode::Char(c) => if c == 'y' || c == 'Y' {
            (s, ActionView::DeleteRequested(s.rows[s.selected].name))
        } else if c == 'n' || c == 'N' {
            (PickerView { stage: Stage::List, ..s }, ActionView::Noop)
        } else {
            (s, ActionView::Noop)
        },
        KeyCode::Esc => (PickerView { stage: Stage::List, ..s }, ActionView::Noop),
        _ => (s, ActionView::Noop),
    }
}

pub open spec fn spec_add_provider_key(s: PickerView, k: KeyEvent) -> (PickerView, ActionView) {
    match k.code {
        KeyCode::Esc => (PickerView { stage: Stage::List, ..s }, ActionView::Noop),
        KeyCode::Tab => (PickerView { add_field: next_field(s.add_field), ..s }, ActionView::Noop),
        KeyCode::Up => if s.add_field == AddField::Protocol {
            (
                PickerView {
                    add_protocol: if s.add_protocol > 0 { s.add_protocol - 1 } else { s.add_protocol },
                    ..s
                },
                ActionView::Noop,
            )
        } else {
            (s, ActionView::Noop)
        },
        KeyCode::Down => if s.add_field == AddField::Protocol {
            (
                PickerView {
                    add_protocol: if s.add_protocol + 1 < 3 { s.add_protocol + 1 } else { s.add_protocol },
                    ..s
                },
                ActionView::Noop,
            )
        } else {
            (s, ActionView::Noop)
        },
        KeyCode::Backspace => (form_pop(s), ActionView::Noop),
        KeyCode::Enter => if s.add_name.len() > 0 && s.add_base_url.len() > 0 {
            let key = trimmed(s.add_api_key);
            (
                s,
                ActionView::AddRequested(
                    trimmed(s.add_name),
                    trimmed(s.add_base_url),
                    protocol_option_spec(s.add_protocol),
                    if key.len() == 0 { None } else { Some(key) },
                ),
            )
        } else {
            (s, ActionView::Noop)
        },
        KeyCode::Char(c) => if c == 'h' && k.control {
            (form_pop(s), ActionView::Noop)
        } else {
            (form_push(s, c), ActionView::Noop)
        },
        _ => (s, ActionView::Noop),
    }
}

/// A key press without the Control modifier.
pub open spec fn plain_key(code: KeyCode) -> KeyEvent {
    KeyEvent { code, control: false }
}

/// The picker's response to a key press: its next state and the action.
pub open spec fn spec_handle_key(s: PickerView, k: KeyEvent) -> (PickerView, ActionView) {
    match s.stage {
        Stage::List => spec_list_key(s, k),
        Stage::KeyEntry => spec_key_entry_key(s, k),
        Stage::ConfirmDelete => spec_confirm_delete_key(s, k),
        Stage::AddProvider => spec_add_provider_key(s, k),
    }
}

/// `DEEPSEEK_PROVIDER_<NAME>_API_KEY`, the name upper-cased with `-` turned into `_`.
pub open spec fn spec_env_var_for(name: Seq<char>) -> Seq<char> {
    "DEEPSEEK_PROVIDER_"@ + ascii_upper(name).map_values(|c: char| if c == '-' { '_' } else { c })
        + "_API_KEY"@
}

/// The hint shown next to a provider in the list.
pub open spec fn spec_provider_hint(row: RowView) -> Seq<char> {
    if row.name == "ollama"@ {
        "self-hosted; defaults to http://localhost:11434"@
    } else if row.name == "sglang"@ || row.name == "vllm"@ {
        if row.has_key {
            "(configured; optional key)"@
        } else {
            "(optional key)"@
        }
    } else if row.has_key {
        "(configured)"@
    } else {
        "(needs API key)"@
    }
}

/// A key shown with all but its last four characters masked (after trimming);
/// keys of four characters or fewer are masked entirely.
pub open spec fn spec_mask_key(input: Seq<char>) -> Seq<char> {
    let t = trimmed(input);
    if t.len() <= 4 {
        Seq::new(t.len(), |i: int| '*')
    } else {
        Seq::new((t.len() - 4) as nat, |i: int| '*') + t.subrange(t.len() - 4, t.len() as int)
    }
}


fn char_to_upper(c: char) -> (r: char)
    ensures
        r == upper_char(c),
{
    if 'a' <= c && c <= 'z' {
        let b: u8 = ((c as u32) - 32) as u8;
        b as char
    } else {
        c
    }
}

/// The name of the environment variable that holds a provider's API key.
pub fn env_var_for(name: &str) -> (r: String)
    ensures
        r@ == spec_env_var_for(name@),
{
    let v = chars_of(name);
    let ghost mapped = ascii_upper(name@).map_values(|c: char| if c == '-' { '_' } else { c });
    let mut out = String::new();
    append_str(&mut out, "DEEPSEEK_PROVIDER_");
    let ghost start = out@;
    let mut i: usize = 0;
    while i < v.len()
        invariant
            v@ == name@,
            i <= v.len(),
            mapped == ascii_upper(name@).map_values(|c: char| if c == '-' { '_' } else { c }),
            out@ == start + mapped.subrange(0, i as int),
        decreases v.len() - i,
    {
        let u = char_to_upper(v[i]);
        let c = if u == '-' {
            '_'
        } else {
            u
        };
        push_char(&mut out, c);
        i = i + 1;
        assert(out@ =~= start + mapped.subrange(0, i as int));
    }
    assert(mapped.subrange(0, v.len() as int) =~= mapped);
    append_str(&mut out, "_API_KEY");
    out
}

/// The hint shown next to a provider in the list.
pub fn provider_hint(row: &ProviderRow) -> (r: String)
    ensures
        r@ == spec_provider_hint(row@),
{
    if str_eq(row.name.as_str(), "ollama") {
        return "self-hosted; defaults to http://localhost:11434".to_owned();
    }
    if str_eq(row.name.as_str(), "sglang") || str_eq(row.name.as_str(), "vllm") {
        return if row.has_key {
            "(configured; optional key)".to_owned()
        } else {
            "(optional key)".to_owned()
        };
    }
    if row.has_key {
        "(configured)".to_owned()
    } else {
        "(needs API key)".to_owned()
    }
}

/// The key as shown while it is typed: masked but for its last four characters.
pub fn mask_key(input: &str) -> (r: String)
    ensures
        r@ == spec_mask_key(input@),
{
    let t = trim_str(input);
    let v = chars_of(t.as_str());
    let len = v.len();
    let mut out = String::new();
    if len == 0 {
        assert(out@ =~= spec_mask_key(input@));
        return out;
    }
    let stars = if len <= 4 {
        len
    } else {
        len - 4
    };
    let mut i: usize = 0;
    while i < stars
        invariant
            i <= stars,
            out@ == Seq::new(i as nat, |j: int| '*'),
        decreases stars - i,
    {
        push_char(&mut out, '*');
        i = i + 1;
        assert(out@ =~= Seq::new(i as nat, |j: int| '*'));
    }
    if len <= 4 {
        assert(out@ =~= spec_mask_key(input@));
        return out;
    }
    let mut k: usize = len - 4;
    let ghost base = out@;
    while k < len
        invariant
            v@ == trimmed(input@),
            len == v@.len(),
            4 < len,
            len - 4 <= k <= len,
            base == Seq::new((len - 4) as nat, |j: int| '*'),
            out@ == base + v@.subrange(len - 4, k as int),
        decreases len - k,
    {
        push_char(&mut out, v[k]);
        k = k + 1;
        assert(out@ =~= base + v@.subrange(len - 4, k as int));
    }
    assert(out@ =~= spec_mask_key(input@));
    out
}

impl ProviderPickerView {
    /// A picker listing the registry's providers by name, with the active
    /// provider selected (the first row when it is not listed).
    pub fn new(active_provider: &str, registry: &ProviderRegistry, _config: &Config) -> (r: Self)
        requires
            registry.wf(),
        ensures
            picker_wf(r@),
            r@.stage == Stage::List,
            r@.active == active_provider@,
            r@.key_input.len() == 0,
            r@.add_name.len() == 0,
            r@.add_base_url.len() == 0,
            r@.add_protocol == 0,
            r@.add_api_key.len() == 0,
            r@.add_field == AddField::Name,
            forall|i: int|
                0 <= i < r@.rows.len() ==> registry@.contains_key((#[trigger] r@.rows[i]).name)
                    && r@.rows[i] == row_of(registry@[r@.rows[i].name]),
            forall|k: Seq<char>|
                #[trigger] registry@.contains_key(k) ==> exists|i: int|
                    0 <= i < r@.rows.len() && (#[trigger] r@.rows[i]).name == k,
            forall|i: int, j: int|
                0 <= i < j < r@.rows.len() ==> seq_lt(
                    #[trigger] r@.rows[i].name,
                    #[trigger] r@.rows[j].name,
                ),
            (exists|i: int| 0 <= i < r@.rows.len() && (#[trigger] r@.rows[i]).name == active_provider@)
                ==> r@.rows[r@.selected].name == active_provider@,
            !(exists|i: int| 0 <= i < r@.rows.len() && (#[trigger] r@.rows[i]).name == active_provider@)
                ==> r@.selected == 0,
    {
        let all = registry.all_providers();
        let mut providers: Vec<ProviderRow> = Vec::new();
        let mut i: usize = 0;
        while i < all.len()
            invariant
                i <= all@.len(),
                providers@.len() == i,
                forall|k: int| 0 <= k < i ==> (#[trigger] providers@[k])@ == row_of(all@[k]@),
            decreases all@.len() - i,
        {
            let p = all[i];
            providers.push(
                ProviderRow {
                    name: p.name.clone(),
                    display_name: p.display_name.clone(),
                    has_key: p.api_key.is_some(),
                    is_builtin: p.is_builtin,
                },
            );
            i = i + 1;
        }
        proof {
            registry.lemma_wf();
            crate::provider_registry::lemma_builtin_names_contains();
            assert(registry@.contains_key("deepseek"@));
        }
        assert(providers@.len() > 0) by {
            let w = choose|w: int| 0 <= w < all@.len() && (#[trigger] all@[w]).name@ == "deepseek"@;
        }
        let mut selected_idx: usize = 0;
        let mut found = false;
        let mut j: usize = 0;
        while j < providers.len()
            invariant_except_break
                providers@.len() > 0,
                j <= providers@.len(),
                selected_idx == 0,
                !found,
                forall|k: int| 0 <= k < j ==> (#[trigger] providers@[k]).name@ != active_provider@,
            ensures
                selected_idx < providers@.len(),
                found ==> providers@[selected_idx as int].name@ == active_provider@,
                !found ==> selected_idx == 0 && forall|k: int|
                    0 <= k < providers@.len() ==> (#[trigger] providers@[k]).name@ != active_provider@,
            decreases providers@.len() - j,
        {
            if str_eq(providers[j].name.as_str(), active_provider) {
                selected_idx = j;
                found = true;
                break;
            }
            j = j + 1;
        }
        let r = ProviderPickerView {
            providers,
            active_provider: active_provider.to_owned(),
            selected_idx,
            stage: Stage::List,
            api_key_input: String::new(),
            add_name: String::new(),
            add_base_url: String::new(),
            add_protocol_idx: 0,
            add_api_key: String::new(),
            add_field: AddField::Name,
        };
        proof {
            let rows = r@.rows;
            assert forall|a: int| 0 <= a < rows.len() implies (#[trigger] rows[a]) == row_of(all@[a]@) by {
                assert(rows[a] == r.providers@[a]@);
            }
            assert forall|k: Seq<char>| #[trigger] registry@.contains_key(k) implies exists|a: int|
                0 <= a < rows.len() && (#[trigger] rows[a]).name == k by {
                let w = choose|w: int| 0 <= w < all@.len() && (#[trigger] all@[w]).name@ == k;
                assert(rows[w] == row_of(all@[w]@));
            }
            if !found {
                assert forall|a: int| 0 <= a < rows.len() implies (#[trigger] rows[a]).name != active_provider@ by {
                    assert(rows[a] == r.providers@[a]@);
                }
            }
        }
        r
    }

    pub fn kind(&self) -> (r: ModalKind)
        ensures
            r == ModalKind::ProviderPicker,
    {
        ModalKind::ProviderPicker
    }

    /// Moves the selection one row up, unless it is on the first row.
    pub fn move_up(&mut self)
        requires
            picker_wf(old(self)@),
        ensures
            final(self)@ == spec_list_key(old(self)@, plain_key(KeyCode::Up)).0,
            picker_wf(final(self)@),
    {
        if self.selected_idx > 0 {
            self.selected_idx = self.selected_idx - 1;
        }
    }

    /// Moves the selection one row down, unless it is on the last row.
    pub fn move_down(&mut self)
        requires
            picker_wf(old(self)@),
        ensures
            final(self)@ == spec_list_key(old(self)@, plain_key(KeyCode::Down)).0,
            picker_wf(final(self)@),
    {
        let n = self.providers.len();
        if self.selected_idx + 1 < n {
            self.selected_idx = self.selected_idx + 1;
        }
    }

    /// The name of the selected provider.
    pub fn selected_name(&self) -> (r: &str)
        requires
            picker_wf(self@),
        ensures
            r@ == self@.rows[self@.selected].name,
    {
        self.providers[self.selected_idx].name.as_str()
    }

    /// Whether the selected provider has an API key.
    pub fn selected_has_key(&self) -> (r: bool)
        requires
            picker_wf(self@),
        ensures
            r == self@.rows[self@.selected].has_key,
    {
        self.providers[self.selected_idx].has_key
    }

    /// Pasted text goes, without its white space, into the key being typed;
    /// returns whether the paste was taken.
    pub fn handle_paste(&mut self, text: &str) -> (r: bool)
        ensures
            r == (old(self)@.stage == Stage::KeyEntry),
            r ==> final(self)@ == (PickerView {
                key_input: old(self)@.key_input + without_ws(text@),
                ..old(self)@
            }),
            !r ==> final(self)@ == old(self)@,
    {
        if self.stage == Stage::KeyEntry {
            let sanitized = remove_whitespace(text);
            if !sanitized.as_str().is_empty() {
                append_str(&mut self.api_key_input, sanitized.as_str());
            }
            assert(self@.key_input =~= old(self)@.key_input + without_ws(text@));
            true
        } else {
            false
        }
    }
}


impl ProviderPickerView {
    fn list_key(&mut self, key: KeyEvent) -> (r: ViewAction)
        requires
            picker_wf(old(self)@),
            old(self)@.stage == Stage::List,
        ensures
            final(self)@ == spec_list_key(old(self)@, key).0,
            r@ == spec_list_key(old(self)@, key).1,
            picker_wf(final(self)@),
    {
        match key.code {
            KeyCode::Esc => ViewAction::Close,
            KeyCode::Up => {
                self.move_up();
                ViewAction::Noop
            },
            KeyCode::Down => {
                self.move_down();
                ViewAction::Noop
            },
            KeyCode::Enter => {
                if self.selected_has_key() {
                    ViewAction::EmitAndClose(
                        ViewEvent::ProviderPickerApplied {
                            provider_name: self.selected_name().to_owned(),
                        },
                    )
                } else {
                    self.stage = Stage::KeyEntry;
                    self.api_key_input = String::new();
                    ViewAction::Noop
                }
            },
            KeyCode::Delete => {
                if !self.providers[self.selected_idx].is_builtin {
                    self.stage = Stage::ConfirmDelete;
                }
                ViewAction::Noop
            },
            KeyCode::Char(c) => {
                if c == 'd' {
                    if !self.providers[self.selected_idx].is_builtin {
                        self.stage = Stage::ConfirmDelete;
                    }
                } else if c == 'a' {
                    self.stage = Stage::AddProvider;
                    self.add_name = String::new();
                    self.add_base_url = String::new();
                    self.add_protocol_idx = 0;
                    self.add_api_key = String::new();
                    self.add_field = AddField::Name;
                }
                ViewAction::Noop
            },
            _ => ViewAction::Noop,
        }
    }

    fn key_entry_key(&mut self, key: KeyEvent) -> (r: ViewAction)
        requires
            picker_wf(old(self)@),
            old(self)@.stage == Stage::KeyEntry,
        ensures
            final(self)@ == spec_key_entry_key(old(self)@, key).0,
            r@ == spec_key_entry_key(old(self)@, key).1,
            picker_wf(final(self)@),
    {
        match key.code {
            KeyCode::Esc => {
                self.stage = Stage::List;
                self.api_key_input = String::new();
                ViewAction::Noop
            },
            KeyCode::Backspace => {
                pop_char(&mut self.api_key_input);
                ViewAction::Noop
            },
            KeyCode::Enter => {
                let k = trim_str(self.api_key_input.as_str());
                if k.as_str().is_empty() {
                    ViewAction::Noop
                } else {
                    ViewAction::EmitAndClose(
                        ViewEvent::ProviderPickerApiKeySubmitted {
                            provider_name: self.selected_name().to_owned(),
                            api_key: k,
                        },
                    )
                }
            },
            KeyCode::Char(c) => {
                if c == 'h' && key.control {
                    pop_char(&mut self.api_key_input);
                } else if !is_whitespace(c) {
                    push_char(&mut self.api_key_input, c);
                }
                ViewAction::Noop
            },
            _ => ViewAction::Noop,
        }
    }

    fn confirm_delete_key(&mut self, key: KeyEvent) -> (r: ViewAction)
        requires
            picker_wf(old(self)@),
            old(self)@.stage == Stage::ConfirmDelete,
        ensures
            final(self)@ == spec_confirm_delete_key(old(self)@, key).0,
            r@ == spec_confirm_delete_key(old(self)@, key).1,
            picker_wf(final(self)@),
    {
        match key.code {
            KeyCode::Char(c) => {
                if c == 'y' || c == 'Y' {
                    ViewAction::EmitAndClose(
                        ViewEvent::ProviderPickerDeleteRequested {
                            provider_name: self.selected_name().to_owned(),
                        },
                    )
                } else if c == 'n' || c == 'N' {
                    self.stage = Stage::List;
                    ViewAction::Noop
                } else {
                    ViewAction::Noop
                }
            },
            KeyCode::Esc => {
                self.stage = Stage::List;
                ViewAction::Noop
            },
            _ => ViewAction::Noop,
        }
    }

    fn pop_form_field(&mut self)
        requires
            picker_wf(old(self)@),
        ensures
            final(self)@ == form_pop(old(self)@),
    {
        match self.add_field {
            AddField::Name => pop_char(&mut self.add_name),
            AddField::BaseUrl => pop_char(&mut self.add_base_url),
            AddField::ApiKey => pop_char(&mut self.add_api_key),
            AddField::Protocol => {},
        }
    }

    fn add_provider_key(&mut self, key: KeyEvent) -> (r: ViewAction)
        requires
            picker_wf(old(self)@),
            old(self)@.stage == Stage::AddProvider,
        ensures
            final(self)@ == spec_add_provider_key(old(self)@, key).0,
            r@ == spec_add_provider_key(old(self)@, key).1,
            picker_wf(final(self)@),
    {
        match key.code {
            KeyCode::Esc => {
                self.stage = Stage::List;
                ViewAction::Noop
            },
            KeyCode::Tab => {
                self.add_field =
                match self.add_field {
                    AddField::Name => AddField::BaseUrl,
                    AddField::BaseUrl => AddField::Protocol,
                    AddField::Protocol => AddField::ApiKey,
                    AddField::ApiKey => AddField::Name,
                };
                ViewAction::Noop
            },
            KeyCode::Up => {
                if self.add_field == AddField::Protocol && self.add_protocol_idx > 0 {
                    self.add_protocol_idx = self.add_protocol_idx - 1;
                }
                ViewAction::Noop
            },
            KeyCode::Down => {
                if self.add_field == AddField::Protocol && self.add_protocol_idx + 1
                    < PROTOCOL_OPTION_COUNT {
                    self.add_protocol_idx = self.add_protocol_idx + 1;
                }
                ViewAction::Noop
            },
            KeyCode::Backspace => {
                self.pop_form_field();
                ViewAction::Noop
            },
            KeyCode::Enter => {
                if !self.add_name.as_str().is_empty() && !self.add_base_url.as_str().is_empty() {
                    let k = trim_str(self.add_api_key.as_str());
                    let api_key = if k.as_str().is_empty() {
                        None
                    } else {
                        Some(k)
                    };
                    ViewAction::EmitAndClose(
                        ViewEvent::ProviderPickerAddRequested {
                            name: trim_str(self.add_name.as_str()),
                            base_url: trim_str(self.add_base_url.as_str()),
                            protocol: protocol_option(self.add_protocol_idx).to_owned(),
                            api_key,
                        },
                    )
                } else {
                    ViewAction::Noop
                }
            },
            KeyCode::Char(c) => {
                if c == 'h' && key.control {
                    self.pop_form_field();
                } else {
                    match self.add_field {
                        AddField::Name => push_char(&mut self.add_name, c),
                        AddField::BaseUrl => push_char(&mut self.add_base_url, c),
                        AddField::ApiKey => {
                            if !is_whitespace(c) {
                                push_char(&mut self.add_api_key, c);
                            }
                        },
                        AddField::Protocol => {},
                    }
                }
                ViewAction::Noop
            },
            _ => ViewAction::Noop,
        }
    }

    /// Answers a key press: updates the picker and says what the application
    /// should do.
    pub fn handle_key(&mut self, key: KeyEvent) -> (r: ViewAction)
        requires
            picker_wf(old(self)@),
        ensures
            final(self)@ == spec_handle_key(old(self)@, key).0,
            r@ == spec_handle_key(old(self)@, key).1,
            picker_wf(final(self)@),
    {
        match self.stage {
            Stage::List => self.list_key(key),
            Stage::KeyEntry => self.key_entry_key(key),
            Stage::ConfirmDelete => self.confirm_delete_key(key),
            Stage::AddProvider => self.add_provider_key(key),
        }
    }
}


/// The picker after `cs` is typed one character at a time (no Control).
pub open spec fn typed(s: PickerView, cs: Seq<char>) -> PickerView
    decreases cs.len(),
{
    if cs.len() == 0 {
        s
    } else {
        spec_handle_key(typed(s, cs.drop_last()), plain_key(KeyCode::Char(cs.last()))).0
    }
}

proof fn lemma_typed_key_entry(s: PickerView, cs: Seq<char>)
    requires
        picker_wf(s),
        s.stage == Stage::KeyEntry,
        forall|i: int| 0 <= i < cs.len() ==> !is_ws(#[trigger] cs[i]),
    ensures
        typed(s, cs) == (PickerView { key_input: s.key_input + cs, ..s }),
    decreases cs.len(),
{
    if cs.len() == 0 {
        assert(s.key_input + cs =~= s.key_input);
    } else {
        lemma_typed_key_entry(s, cs.drop_last());
        assert(!is_ws(cs[cs.len() - 1]));
        assert((s.key_input + cs.drop_last()).push(cs.last()) =~= s.key_input + cs);
    }
}

/// Choosing a provider that has no key, typing a key without white space
/// and pressing Enter submits exactly that key for that provider.
pub proof fn law_typed_key_is_submitted(s: PickerView, cs: Seq<char>)
    requires
        picker_wf(s),
        s.stage == Stage::List,
        !s.rows[s.selected].has_key,
        cs.len() > 0,
        forall|i: int| 0 <= i < cs.len() ==> !is_ws(#[trigger] cs[i]),
    ensures
        spec_handle_key(
            typed(spec_handle_key(s, plain_key(KeyCode::Enter)).0, cs),
            plain_key(KeyCode::Enter),
        ).1 == ActionView::KeySubmitted(s.rows[s.selected].name, cs),
{
    let e = spec_handle_key(s, plain_key(KeyCode::Enter)).0;
    assert(e.key_input.len() == 0);
    lemma_typed_key_entry(e, cs);
    let t = typed(e, cs);
    assert(t.key_input =~= cs);
    assert(lead_ws(cs) == 0);
    assert(cs.skip(0) =~= cs);
    assert(trail_ws(cs) == 0);
    assert(cs.take(cs.len() as int) =~= cs);
    assert(trimmed(cs) == cs);
}

/// Moving down and then up in the list returns to the same state, unless the
/// selection was already on the last row.
pub proof fn law_down_then_up(s: PickerView)
    requires
        picker_wf(s),
        s.stage == Stage::List,
        s.selected + 1 < s.rows.len(),
    ensures
        spec_handle_key(spec_handle_key(s, plain_key(KeyCode::Down)).0, plain_key(KeyCode::Up)).0
            == s,
{
}

/// Key handling never changes the listed providers or the active provider,
/// and keeps the selection on a row.
pub proof fn law_keys_keep_rows(s: PickerView, k: KeyEvent)
    requires
        picker_wf(s),
    ensures
        spec_handle_key(s, k).0.rows == s.rows,
        spec_handle_key(s, k).0.active == s.active,
        picker_wf(spec_handle_key(s, k).0),
{
}

/// Escape always leaves the current step: from the list it closes the picker,
/// from any other step it returns to the list without emitting anything.
pub proof fn law_escape(s: PickerView)
    requires
        picker_wf(s),
    ensures
        s.stage == Stage::List ==> spec_handle_key(s, plain_key(KeyCode::Esc)).1 == ActionView::Close,
        s.stage != Stage::List ==> spec_handle_key(s, plain_key(KeyCode::Esc)).0.stage == Stage::List
            && spec_handle_key(s, plain_key(KeyCode::Esc)).1 == ActionView::Noop,
{
}

/// A masked key is as long as the trimmed key, shows only `*` but for at most
/// its last four characters, and shows those only when the key is longer than four.
pub proof fn law_mask_key(input: Seq<char>)
    ensures
        spec_mask_key(input).len() == trimmed(input).len(),
        trimmed(input).len() <= 4 ==> forall|i: int|
            0 <= i < spec_mask_key(input).len() ==> #[trigger] spec_mask_key(input)[i] == '*',
        trimmed(input).len() > 4 ==> spec_mask_key(input).subrange(
            trimmed(input).len() - 4,
            trimmed(input).len() as int,
        ) == trimmed(input).subrange(trimmed(input).len() - 4, trimmed(input).len() as int),
{
    let t = trimmed(input);
    if t.len() > 4 {
        assert(spec_mask_key(input).subrange(t.len() - 4, t.len() as int) =~= t.subrange(
            t.len() - 4,
            t.len() as int,
        ));
    }
}


/// The parts of one line of the provider list.
pub struct ListLine {
    /// `▸` on the selected row, a space elsewhere.
    pub arrow: &'static str,
    pub display_name: String,
    /// ` (user-defined)` for a provider that is not builtin.
    pub badge: &'static str,
    /// ` *` on the active provider.
    pub active_dot: &'static str,
    pub hint: String,
    pub selected: bool,
    pub has_key: bool,
}

/// The width and height of the popup for a terminal area: 64 columns (at least
/// 40) and a height by step (at least 8), each kept 4 cells inside the area.
pub open spec fn spec_popup_size(stage: Stage, width: u16, height: u16) -> (u16, u16) {
    let w: int = if width >= 4 { width - 4 } else { 0 };
    let pw: int = if 64 <= w { 64 } else { w };
    let base: int = match stage {
        Stage::List => 12,
        Stage::KeyEntry => 10,
        Stage::ConfirmDelete => 8,
        Stage::AddProvider => 14,
    };
    let h: int = if height >= 4 { height - 4 } else { 0 };
    let ph: int = if base <= h { base } else { h };
    ((if pw >= 40 { pw } else { 40 }) as u16, (if ph >= 8 { ph } else { 8 }) as u16)
}

/// The popup centred in the area `(x, y, width, height)`.
pub open spec fn spec_popup_area(stage: Stage, x: u16, y: u16, width: u16, height: u16) -> (u16, u16, u16, u16) {
    let (pw, ph) = spec_popup_size(stage, width, height);
    let dx: int = if width >= pw { (width - pw) / 2 } else { 0 };
    let dy: int = if height >= ph { (height - ph) / 2 } else { 0 };
    ((x + dx) as u16, (y + dy) as u16, pw, ph)
}

/// Whether centring the popup stays within the range of a cell coordinate.
pub open spec fn popup_fits(stage: Stage, x: u16, y: u16, width: u16, height: u16) -> bool {
    let (pw, ph) = spec_popup_size(stage, width, height);
    &&& x + (if width >= pw { (width - pw) / 2 } else { 0 }) <= u16::MAX
    &&& y + (if height >= ph { (height - ph) / 2 } else { 0 }) <= u16::MAX
}

pub fn popup_area(stage: Stage, x: u16, y: u16, width: u16, height: u16) -> (r: (u16, u16, u16, u16))
    requires
        popup_fits(stage, x, y, width, height),
    ensures
        r == spec_popup_area(stage, x, y, width, height),
{
    let w = width.saturating_sub(4);
    let pw0: u16 = if 64 <= w { 64 } else { w };
    let pw: u16 = if pw0 >= 40 { pw0 } else { 40 };
    let base: u16 = match stage {
        Stage::List => 12,
        Stage::KeyEntry => 10,
        Stage::ConfirmDelete => 8,
        Stage::AddProvider => 14,
    };
    let h = height.saturating_sub(4);
    let ph0: u16 = if base <= h { base } else { h };
    let ph: u16 = if ph0 >= 8 { ph0 } else { 8 };
    let dx = width.saturating_sub(pw) / 2;
    let dy = height.saturating_sub(ph) / 2;
    (x + dx, y + dy, pw, ph)
}

pub open spec fn spec_key_entry_display(key_input: Seq<char>) -> Seq<char> {
    if spec_mask_key(key_input).len() == 0 {
        "(paste key here)"@
    } else {
        spec_mask_key(key_input)
    }
}

pub open spec fn spec_key_entry_hint(name: Seq<char>) -> Seq<char> {
    "Or set the "@ + spec_env_var_for(name) + " environment variable and re-open /provider."@
}

impl ProviderPickerView {
    /// The step the picker is at.
    pub fn stage(&self) -> (r: Stage)
        ensures
            r == self@.stage,
    {
        self.stage
    }

    /// The listed providers, sorted by name.
    pub fn rows(&self) -> (r: &Vec<ProviderRow>)
        ensures
            r@.map_values(|p: ProviderRow| p@) == self@.rows,
    {
        &self.providers
    }

    /// The index of the selected row.
    pub fn selected_idx(&self) -> (r: usize)
        ensures
            r == self@.selected,
    {
        self.selected_idx
    }

    /// The provider that was active when the picker opened.
    pub fn active_provider(&self) -> (r: &str)
        ensures
            r@ == self@.active,
    {
        self.active_provider.as_str()
    }

    /// The key typed so far.
    pub fn api_key_input(&self) -> (r: &str)
        ensures
            r@ == self@.key_input,
    {
        self.api_key_input.as_str()
    }

    /// The field of the add-provider form being edited.
    pub fn add_field(&self) -> (r: AddField)
        ensures
            r == self@.add_field,
    {
        self.add_field
    }

    /// The parts of the list line of row `idx`.
    pub fn list_line(&self, idx: usize) -> (r: ListLine)
        requires
            idx < self@.rows.len(),
        ensures
            r.selected == (idx == self@.selected),
            r.arrow@ == (if idx == self@.selected { "\u{25b8}"@ } else { " "@ }),
            r.display_name@ == self@.rows[idx as int].display_name,
            r.badge@ == (if self@.rows[idx as int].is_builtin { ""@ } else { " (user-defined)"@ }),
            r.active_dot@ == (if self@.rows[idx as int].name == self@.active { " *"@ } else { "  "@ }),
            r.hint@ == spec_provider_hint(self@.rows[idx as int]),
            r.has_key == self@.rows[idx as int].has_key,
    {
        let row = &self.providers[idx];
        let selected = idx == self.selected_idx;
        ListLine {
            arrow: if selected {
                "\u{25b8}"
            } else {
                " "
            },
            display_name: row.display_name.clone(),
            badge: if row.is_builtin {
                ""
            } else {
                " (user-defined)"
            },
            active_dot: if str_eq(row.name.as_str(), self.active_provider.as_str()) {
                " *"
            } else {
                "  "
            },
            hint: provider_hint(row),
            selected,
            has_key: row.has_key,
        }
    }

    /// What the key field shows: the masked key, or a prompt while it is empty.
    pub fn key_entry_display(&self) -> (r: String)
        ensures
            r@ == spec_key_entry_display(self@.key_input),
    {
        let masked = mask_key(self.api_key_input.as_str());
        if masked.as_str().is_empty() {
            "(paste key here)".to_owned()
        } else {
            masked
        }
    }

    /// The line pointing at the environment variable of the selected provider.
    pub fn key_entry_hint(&self) -> (r: String)
        requires
            picker_wf(self@),
        ensures
            r@ == spec_key_entry_hint(self@.rows[self@.selected].name),
    {
        let mut out = "Or set the ".to_owned();
        let var = env_var_for(self.selected_name());
        append_str(&mut out, var.as_str());
        append_str(&mut out, " environment variable and re-open /provider.");
        out
    }

    /// The display name of the selected provider.
    pub fn selected_display_name(&self) -> (r: &str)
        requires
            picker_wf(self@),
        ensures
            r@ == self@.rows[self@.selected].display_name,
    {
        self.providers[self.selected_idx].display_name.as_str()
    }

    /// The values the add-provider form shows: name, base URL, protocol and
    /// key, with a placeholder for an empty field and the key masked.
    pub fn add_form_values(&self) -> (r: (String, String, &'static str, String))
        requires
            picker_wf(self@),
        ensures
            r.0@ == (if self@.add_name.len() == 0 { "(name)"@ } else { self@.add_name }),
            r.1@ == (if self@.add_base_url.len() == 0 { "(base url)"@ } else { self@.add_base_url }),
            r.2@ == protocol_option_spec(self@.add_protocol),
            r.3@ == (if self@.add_api_key.len() == 0 {
                "(optional)"@
            } else {
                spec_mask_key(self@.add_api_key)
            }),
    {
        let name = if self.add_name.as_str().is_empty() {
            "(name)".to_owned()
        } else {
            self.add_name.clone()
        };
        let base = if self.add_base_url.as_str().is_empty() {
            "(base url)".to_owned()
        } else {
            self.add_base_url.clone()
        };
        let key = if self.add_api_key.as_str().is_empty() {
            "(optional)".to_owned()
        } else {
            mask_key(self.add_api_key.as_str())
        };
        (name, base, protocol_option(self.add_protocol_idx), key)
    }
}

} // verus!
