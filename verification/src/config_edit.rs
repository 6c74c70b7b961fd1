//! Adding a provider to the TOML configuration text: the `[providers.<name>]`
//! table gets its base URL, protocol and key, and everything else is kept.
use vstd::prelude::*;

use crate::text::str_eq;

verus! {

/// A TOML value (`toml::Value`), carried through unchanged.
#[verifier::external_type_specification]
#[verifier::external_body]
pub struct ExTomlValue(toml::Value);

/// A TOML parse error (`toml::de::Error`).
#[verifier::external_type_specification]
#[verifier::external_body]
pub struct ExTomlDeError(toml::de::Error);

/// A TOML serialisation error (`toml::ser::Error`).
#[verifier::external_type_specification]
#[verifier::external_body]
pub struct ExTomlSerError(toml::ser::Error);

/// A value of a table inside a table of the root: a table of values, or
/// another value.
#[derive(Debug)]
pub enum TomlInner {
    Table(Vec<(String, toml::Value)>),
    Value(toml::Value),
}

/// A value of the root table: a table of inner values, or another value.
#[derive(Debug)]
pub enum TomlOuter {
    Table(Vec<(String, TomlInner)>),
    Value(toml::Value),
}

/// A TOML document whose root is a table: the root's entries, tables
/// expanded two levels down, deeper values carried as they are.
#[derive(Debug)]
pub struct TomlDoc {
    pub entries: Vec<(String, TomlOuter)>,
}

pub enum InnerView {
    Table(Seq<(Seq<char>, toml::Value)>),
    Value(toml::Value),
}

pub enum OuterView {
    Table(Seq<(Seq<char>, InnerView)>),
    Value(toml::Value),
}

impl View for TomlInner {
    type V = InnerView;

    open spec fn view(&self) -> InnerView {
        match self {
            TomlInner::Table(t) => InnerView::Table(
                t@.map_values(|p: (String, toml::Value)| (p.0@, p.1)),
            ),
            TomlInner::Value(v) => InnerView::Value(*v),
        }
    }
}

impl View for TomlOuter {
    type V = OuterView;

    open spec fn view(&self) -> OuterView {
        match self {
            TomlOuter::Table(t) => OuterView::Table(
                t@.map_values(|p: (String, TomlInner)| (p.0@, p.1@)),
            ),
            TomlOuter::Value(v) => OuterView::Value(*v),
        }
    }
}

impl View for TomlDoc {
    type V = Seq<(Seq<char>, OuterView)>;

    open spec fn view(&self) -> Seq<(Seq<char>, OuterView)> {
        self.entries@.map_values(|p: (String, TomlOuter)| (p.0@, p.1@))
    }
}

/// What went wrong in adding a provider to the configuration.
#[derive(Clone, Copy, Debug, PartialEq, Eq, Structural)]
pub enum ConfigEditError {
    /// The configuration text is not valid TOML.
    Parse,
    /// The configuration's root is not a table.
    RootNotTable,
    /// `providers` is there but is not a table.
    ProvidersNotTable,
    /// `providers.<name>` is there but is not a table.
    EntryNotTable,
    /// The edited document could not be written as TOML.
    Serialize,
}

/// The index of the first occurrence of `k` among the keys, or -1.
pub open spec fn key_index(ks: Seq<Seq<char>>, k: Seq<char>) -> int
    decreases ks.len(),
{
    if ks.len() == 0 {
        -1
    } else {
        let r = key_index(ks.drop_last(), k);
        if r >= 0 {
            r
        } else if ks.last() == k {
            ks.len() - 1
        } else {
            -1
        }
    }
}

/// The keys of a table's entries.
pub open spec fn view_keys<V>(s: Seq<(Seq<char>, V)>) -> Seq<Seq<char>> {
    s.map_values(|p: (Seq<char>, V)| p.0)
}

pub open spec fn keys_of<V>(s: Seq<(String, V)>) -> Seq<Seq<char>> {
    s.map_values(|p: (String, V)| p.0@)
}

/// The value under `k` in a table (the first, should the key repeat).
pub open spec fn lookup<V>(s: Seq<(Seq<char>, V)>, k: Seq<char>) -> Option<V> {
    let i = key_index(view_keys(s), k);
    if i >= 0 {
        Some(s[i].1)
    } else {
        None
    }
}

/// The table with `k` set to `v`: in place where `k` is, else added at the end.
pub open spec fn set_key<V>(s: Seq<(Seq<char>, V)>, k: Seq<char>, v: V) -> Seq<(Seq<char>, V)> {
    let i = key_index(view_keys(s), k);
    if i >= 0 {
        s.update(i, (k, v))
    } else {
        s.push((k, v))
    }
}

/// The TOML string value of a text.
pub uninterp spec fn spec_toml_string(s: Seq<char>) -> toml::Value;

/// What `toml::from_str::<toml::Value>` makes of a text: `None` where it
/// fails, `Some(None)` where the root is not a table, and otherwise the
/// root's entries.
pub uninterp spec fn spec_parse_toml(raw: Seq<char>) -> Option<Option<Seq<(Seq<char>, OuterView)>>>;

/// What `toml::to_string_pretty` makes of the document with these root
/// entries (`None` where it fails).
pub uninterp spec fn spec_print_toml(doc: Seq<(Seq<char>, OuterView)>) -> Option<Seq<char>>;

/// `toml::Value::String`: the string value of a text.
#[verifier::external_body]
fn toml_string(s: &str) -> (r: toml::Value)
    ensures
        r == spec_toml_string(s@),
{
    toml::Value::String(s.to_owned())
}

/// `toml::from_str::<toml::Value>`: the parsed document, its root's tables
/// and their tables taken apart into entries (in the map's key order).
#[verifier::external_body]
fn parse_toml(raw: &str) -> (r: Result<Option<TomlDoc>, toml::de::Error>)
    ensures
        match r {
            Ok(Some(d)) => spec_parse_toml(raw@) == Some(Some(d@)),
            Ok(None) => spec_parse_toml(raw@) matches Some(None),
            Err(_) => spec_parse_toml(raw@) is None,
        },
{
    Ok(match toml::from_str::<toml::Value>(raw)? {
        toml::Value::Table(t) => Some(TomlDoc { entries: t.into_iter().map(|(k, v)| (k, match v {
            toml::Value::Table(t1) => TomlOuter::Table(t1.into_iter().map(|(k1, v1)| (k1, match v1 {
                toml::Value::Table(t2) => TomlInner::Table(t2.into_iter().collect()),
                x => TomlInner::Value(x),
            })).collect()),
            x => TomlOuter::Value(x),
        })).collect() }),
        _ => None,
    })
}

/// `toml::to_string_pretty` of the document put back together into a
/// `toml::Value` table.
#[verifier::external_body]
fn print_toml(doc: TomlDoc) -> (r: Result<String, toml::ser::Error>)
    ensures
        match r {
            Ok(s) => spec_print_toml(doc@) == Some(s@),
            Err(_) => spec_print_toml(doc@) is None,
        },
{
    let root: toml::Table = doc.entries.into_iter().map(|(k, v)| (k, match v {
        TomlOuter::Table(t1) => toml::Value::Table(t1.into_iter().map(|(k1, v1)| (k1, match v1 {
            TomlInner::Table(t2) => toml::Value::Table(t2.into_iter().collect()),
            TomlInner::Value(x) => x,
        })).collect()),
        TomlOuter::Value(x) => x,
    })).collect();
    toml::to_string_pretty(&toml::Value::Table(root))
}

/// A provider's table with its base URL, protocol and (when given) key set.
pub open spec fn provider_fields_set(
    t: Seq<(Seq<char>, toml::Value)>,
    base_url: Seq<char>,
    protocol: Seq<char>,
    api_key: Option<Seq<char>>,
) -> Seq<(Seq<char>, toml::Value)> {
    let t1 = set_key(t, "base_url"@, spec_toml_string(base_url));
    let t2 = set_key(t1, "protocol"@, spec_toml_string(protocol));
    match api_key {
        Some(k) => set_key(t2, "api_key"@, spec_toml_string(k)),
        None => t2,
    }
}

/// The document with `providers.<name>` holding the provider's settings:
/// `providers` and `providers.<name>` are made tables where they are
/// missing, refused where they are other values, and everything else is kept.
pub open spec fn spec_edit_provider(
    doc: Seq<(Seq<char>, OuterView)>,
    name: Seq<char>,
    base_url: Seq<char>,
    protocol: Seq<char>,
    api_key: Option<Seq<char>>,
) -> Result<Seq<(Seq<char>, OuterView)>, ConfigEditError> {
    let providers: Option<Seq<(Seq<char>, InnerView)>> = match lookup(doc, "providers"@) {
        None => Some(Seq::empty()),
        Some(OuterView::Table(t)) => Some(t),
        Some(OuterView::Value(_)) => None,
    };
    match providers {
        None => Err(ConfigEditError::ProvidersNotTable),
        Some(pt) => {
            let entry: Option<Seq<(Seq<char>, toml::Value)>> = match lookup(pt, name) {
                None => Some(Seq::empty()),
                Some(InnerView::Table(t)) => Some(t),
                Some(InnerView::Value(_)) => None,
            };
            match entry {
                None => Err(ConfigEditError::EntryNotTable),
                Some(et) => Ok(
                    set_key(
                        doc,
                        "providers"@,
                        OuterView::Table(
                            set_key(
                                pt,
                                name,
                                InnerView::Table(provider_fields_set(et, base_url, protocol, api_key)),
                            ),
                        ),
                    ),
                ),
            }
        },
    }
}

/// The configuration text with the provider added: a missing file is an
/// empty document; the text is parsed, edited and written back as TOML.
pub open spec fn spec_add_provider_text(
    raw: Option<Seq<char>>,
    name: Seq<char>,
    base_url: Seq<char>,
    protocol: Seq<char>,
    api_key: Option<Seq<char>>,
) -> Result<Seq<char>, ConfigEditError> {
    let doc = match raw {
        None => Some(Some(Seq::<(Seq<char>, OuterView)>::empty())),
        Some(t) => spec_parse_toml(t),
    };
    match doc {
        None => Err(ConfigEditError::Parse),
        Some(None) => Err(ConfigEditError::RootNotTable),
        Some(Some(d)) => match spec_edit_provider(d, name, base_url, protocol, api_key) {
            Err(e) => Err(e),
            Ok(d2) => match spec_print_toml(d2) {
                Some(s) => Ok(s),
                None => Err(ConfigEditError::Serialize),
            },
        },
    }
}

pub open spec fn opt_chars_of(o: Option<&str>) -> Option<Seq<char>> {
    match o {
        Some(s) => Some(s@),
        None => None,
    }
}

proof fn lemma_key_index(ks: Seq<Seq<char>>, k: Seq<char>)
    ensures
        -1 <= key_index(ks, k) < ks.len(),
        key_index(ks, k) >= 0 ==> ks[key_index(ks, k)] == k,
        forall|j: int| 0 <= j < key_index(ks, k) ==> ks[j] != k,
        key_index(ks, k) == -1 ==> forall|j: int| 0 <= j < ks.len() ==> ks[j] != k,
    decreases ks.len(),
{
    if ks.len() > 0 {
        let q = ks.drop_last();
        lemma_key_index(q, k);
        assert forall|j: int| 0 <= j < q.len() implies q[j] == ks[j] by {}
    }
}

proof fn lemma_key_index_prefix(ks: Seq<Seq<char>>, n: int, k: Seq<char>)
    requires
        0 <= n <= ks.len(),
        key_index(ks.take(n), k) >= 0,
    ensures
        key_index(ks, k) == key_index(ks.take(n), k),
    decreases ks.len() - n,
{
    if n < ks.len() {
        assert(ks.take(n + 1).drop_last() =~= ks.take(n));
        assert(key_index(ks.take(n + 1), k) == key_index(ks.take(n), k));
        lemma_key_index_prefix(ks, n + 1, k);
    } else {
        assert(ks.take(n) =~= ks);
    }
}

/// Setting a key gives that key the value and leaves every other key as it was.
proof fn lemma_set_key<V>(s: Seq<(Seq<char>, V)>, k: Seq<char>, v: V, k2: Seq<char>)
    ensures
        lookup(set_key(s, k, v), k) == Some(v),
        k2 != k ==> lookup(set_key(s, k, v), k2) == lookup(s, k2),
{
    let ks = view_keys(s);
    let i = key_index(ks, k);
    lemma_key_index(ks, k);
    lemma_key_index(ks, k2);
    let t = set_key(s, k, v);
    if i >= 0 {
        assert(view_keys(t) =~= ks);
    } else {
        assert(view_keys(t) =~= ks.push(k));
        assert(view_keys(t).drop_last() =~= ks);
        lemma_key_index(ks.push(k), k);
    }
    lemma_key_index(view_keys(t), k);
    lemma_key_index(view_keys(t), k2);
}

/// The position of key `k` among a table's entries, if it is there.
fn key_position<V>(v: &Vec<(String, V)>, k: &str) -> (r: Option<usize>)
    ensures
        match r {
            Some(i) => i < v@.len() && key_index(keys_of(v@), k@) == i,
            None => key_index(keys_of(v@), k@) == -1,
        },
{
    let ghost ks = keys_of(v@);
    let mut i: usize = 0;
    while i < v.len()
        invariant
            i <= v@.len(),
            ks == keys_of(v@),
            key_index(ks.take(i as int), k@) == -1,
        decreases v@.len() - i,
    {
        proof {
            assert(ks.take(i + 1).drop_last() =~= ks.take(i as int));
            assert(ks.take(i + 1).last() == v@[i as int].0@);
        }
        if str_eq(v[i].0.as_str(), k) {
            proof {
                lemma_key_index_prefix(ks, i + 1, k@);
            }
            return Some(i);
        }
        i = i + 1;
    }
    assert(ks.take(v@.len() as int) =~= ks);
    None
}

/// Sets field `k` of a provider's table to `val`.
fn set_field(t: &mut Vec<(String, toml::Value)>, k: &str, val: toml::Value)
    ensures
        final(t)@.map_values(|p: (String, toml::Value)| (p.0@, p.1)) == set_key(
            old(t)@.map_values(|p: (String, toml::Value)| (p.0@, p.1)),
            k@,
            val,
        ),
{
    let ghost before = old(t)@.map_values(|p: (String, toml::Value)| (p.0@, p.1));
    assert(view_keys(before) =~= keys_of(old(t)@));
    match key_position(t, k) {
        Some(i) => {
            t.set(i, (k.to_owned(), val));
        },
        None => {
            t.push((k.to_owned(), val));
        },
    }
    assert(t@.map_values(|p: (String, toml::Value)| (p.0@, p.1)) =~= set_key(before, k@, val));
}

/// The document with `providers.<name>` holding the provider's base URL,
/// protocol and (when given) key; every other entry, at every level, is kept.
/// Refused when `providers` or `providers.<name>` is there but is not a table.
pub fn edit_provider_table(
    doc: TomlDoc,
    name: &str,
    base_url: &str,
    protocol: &str,
    api_key: Option<&str>,
) -> (r: Result<TomlDoc, ConfigEditError>)
    ensures
        match r {
            Ok(d) => spec_edit_provider(doc@, name@, base_url@, protocol@, opt_chars_of(api_key))
                == Ok::<Seq<(Seq<char>, OuterView)>, ConfigEditError>(d@),
            Err(e) => spec_edit_provider(doc@, name@, base_url@, protocol@, opt_chars_of(api_key))
                == Err::<Seq<(Seq<char>, OuterView)>, ConfigEditError>(e),
        },
{
    let ghost dv = doc@;
    let mut entries = doc.entries;
    assert(view_keys(dv) =~= keys_of(entries@));
    let pos = key_position(&entries, "providers");
    let ghost e0 = entries@;
    let mut providers: Vec<(String, TomlInner)> = Vec::new();
    match pos {
        Some(i) => {
            let (_key, item) = entries.remove(i);
            assert(item == e0[i as int].1);
            match item {
                TomlOuter::Table(t) => {
                    providers = t;
                },
                TomlOuter::Value(_) => {
                    return Err(ConfigEditError::ProvidersNotTable);
                },
            }
        },
        None => {},
    }
    let ghost pv = providers@.map_values(|p: (String, TomlInner)| (p.0@, p.1@));
    if pos.is_none() {
        assert(pv =~= Seq::<(Seq<char>, InnerView)>::empty());
    }
    assert(lookup(dv, "providers"@) == match pos {
        Some(_) => Some(OuterView::Table(pv)),
        None => None::<OuterView>,
    });
    assert(view_keys(pv) =~= keys_of(providers@));
    let epos = key_position(&providers, name);
    let ghost p0 = providers@;
    let mut fields: Vec<(String, toml::Value)> = Vec::new();
    match epos {
        Some(j) => {
            let (_key, item) = providers.remove(j);
            assert(item == p0[j as int].1);
            match item {
                TomlInner::Table(t) => {
                    fields = t;
                },
                TomlInner::Value(_) => {
                    return Err(ConfigEditError::EntryNotTable);
                },
            }
        },
        None => {},
    }
    let ghost fv = fields@.map_values(|p: (String, toml::Value)| (p.0@, p.1));
    if epos.is_none() {
        assert(fv =~= Seq::<(Seq<char>, toml::Value)>::empty());
    }
    assert(lookup(pv, name@) == match epos {
        Some(_) => Some(InnerView::Table(fv)),
        None => None::<InnerView>,
    });
    set_field(&mut fields, "base_url", toml_string(base_url));
    set_field(&mut fields, "protocol", toml_string(protocol));
    match api_key {
        Some(k) => set_field(&mut fields, "api_key", toml_string(k)),
        None => {},
    }
    assert(fields@.map_values(|p: (String, toml::Value)| (p.0@, p.1)) == provider_fields_set(
        fv,
        base_url@,
        protocol@,
        opt_chars_of(api_key),
    ));
    let inner = TomlInner::Table(fields);
    match epos {
        Some(j) => providers.insert(j, (name.to_owned(), inner)),
        None => providers.push((name.to_owned(), inner)),
    }
    assert(providers@.map_values(|p: (String, TomlInner)| (p.0@, p.1@)) =~= set_key(
        pv,
        name@,
        inner@,
    ));
    let outer = TomlOuter::Table(providers);
    match pos {
        Some(i) => entries.insert(i, ("providers".to_owned(), outer)),
        None => entries.push(("providers".to_owned(), outer)),
    }
    let r = TomlDoc { entries };
    assert(r@ =~= set_key(dv, "providers"@, outer@));
    assert(spec_edit_provider(dv, name@, base_url@, protocol@, opt_chars_of(api_key)) == Ok::<
        Seq<(Seq<char>, OuterView)>,
        ConfigEditError,
    >(set_key(dv, "providers"@, OuterView::Table(set_key(pv, name@, InnerView::Table(provider_fields_set(fv, base_url@, protocol@, opt_chars_of(api_key))))))));
    Ok(r)
}

/// The configuration text with the provider added under
/// `[providers.<name>]` (`raw` is `None` where there is no file yet).
pub fn add_provider_to_config_text(
    raw: Option<&str>,
    provider_name: &str,
    base_url: &str,
    protocol: &str,
    api_key: Option<&str>,
) -> (r: Result<String, ConfigEditError>)
    ensures
        match r {
            Ok(s) => spec_add_provider_text(
                opt_chars_of(raw),
                provider_name@,
                base_url@,
                protocol@,
                opt_chars_of(api_key),
            ) == Ok::<Seq<char>, ConfigEditError>(s@),
            Err(e) => spec_add_provider_text(
                opt_chars_of(raw),
                provider_name@,
                base_url@,
                protocol@,
                opt_chars_of(api_key),
            ) == Err::<Seq<char>, ConfigEditError>(e),
        },
{
    let doc = match raw {
        None => {
            let d = TomlDoc { entries: Vec::new() };
            assert(d@ =~= Seq::<(Seq<char>, OuterView)>::empty());
            d
        },
        Some(text) => match parse_toml(text) {
            Err(_) => {
                return Err(ConfigEditError::Parse);
            },
            Ok(None) => {
                return Err(ConfigEditError::RootNotTable);
            },
            Ok(Some(d)) => d,
        },
    };
    let edited = match edit_provider_table(doc, provider_name, base_url, protocol, api_key) {
        Err(e) => {
            return Err(e);
        },
        Ok(d) => d,
    };
    match print_toml(edited) {
        Ok(s) => Ok(s),
        Err(_) => Err(ConfigEditError::Serialize),
    }
}

/// After a successful edit, `providers.<name>` is a table holding the base
/// URL, the protocol and (when given) the key; every other root entry, every
/// other provider and every other field of this provider is as it was.
pub proof fn law_edit_provider(
    doc: Seq<(Seq<char>, OuterView)>,
    name: Seq<char>,
    base_url: Seq<char>,
    protocol: Seq<char>,
    api_key: Option<Seq<char>>,
    k: Seq<char>,
)
    requires
        spec_edit_provider(doc, name, base_url, protocol, api_key) is Ok,
    ensures
        ({
            let d2 = spec_edit_provider(doc, name, base_url, protocol, api_key)->Ok_0;
            let pt = match lookup(doc, "providers"@) {
                Some(OuterView::Table(t)) => t,
                _ => Seq::empty(),
            };
            let et = match lookup(pt, name) {
                Some(InnerView::Table(t)) => t,
                _ => Seq::empty(),
            };
            let fields = provider_fields_set(et, base_url, protocol, api_key);
            &&& lookup(d2, "providers"@) == Some(OuterView::Table(set_key(pt, name, InnerView::Table(fields))))
            &&& lookup(set_key(pt, name, InnerView::Table(fields)), name) == Some(InnerView::Table(fields))
            &&& lookup(fields, "base_url"@) == Some(spec_toml_string(base_url))
            &&& lookup(fields, "protocol"@) == Some(spec_toml_string(protocol))
            &&& (api_key matches Some(key) ==> lookup(fields, "api_key"@) == Some(spec_toml_string(key)))
            &&& (k != "providers"@ ==> lookup(d2, k) == lookup(doc, k))
            &&& (k != name ==> lookup(set_key(pt, name, InnerView::Table(fields)), k) == lookup(pt, k))
            &&& (k != "base_url"@ && k != "protocol"@ && k != "api_key"@ ==> lookup(fields, k) == lookup(et, k))
        }),
{
    reveal_strlit("base_url");
    reveal_strlit("protocol");
    reveal_strlit("api_key");
    let pt = match lookup(doc, "providers"@) {
        Some(OuterView::Table(t)) => t,
        _ => Seq::empty(),
    };
    let et = match lookup(pt, name) {
        Some(InnerView::Table(t)) => t,
        _ => Seq::empty(),
    };
    let fields = provider_fields_set(et, base_url, protocol, api_key);
    let pt2 = set_key(pt, name, InnerView::Table(fields));
    lemma_set_key(doc, "providers"@, OuterView::Table(pt2), k);
    lemma_set_key(pt, name, InnerView::Table(fields), k);
    let t1 = set_key(et, "base_url"@, spec_toml_string(base_url));
    let t2 = set_key(t1, "protocol"@, spec_toml_string(protocol));
    assert("base_url"@[0] != "protocol"@[0]);
    assert("base_url"@[0] != "api_key"@[0]);
    assert("protocol"@[0] != "api_key"@[0]);
    lemma_set_key(et, "base_url"@, spec_toml_string(base_url), k);
    lemma_set_key(t1, "protocol"@, spec_toml_string(protocol), k);
    lemma_set_key(t1, "protocol"@, spec_toml_string(protocol), "base_url"@);
    match api_key {
        Some(key) => {
            lemma_set_key(t2, "api_key"@, spec_toml_string(key), k);
            lemma_set_key(t2, "api_key"@, spec_toml_string(key), "base_url"@);
            lemma_set_key(t2, "api_key"@, spec_toml_string(key), "protocol"@);
        },
        None => {},
    }
}

} // verus!
