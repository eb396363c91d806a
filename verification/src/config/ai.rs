//! Language-model settings (`[ai]`): named provider instances and the active one.
use vstd::prelude::*;
use crate::config::channels::{mask_secret, mask_spec};
use crate::config::str_map::{entry_keys, find_key, lookup, StrMap};
use crate::error::Error;
use crate::messages::catalog::debug_str;
use crate::text::{
    chars_of, clone_opt_str, clone_str, join_chars, join_spec, opt_str_view, push_all, push_str,
    str_eq, string_chars, to_string, char_views,
};

verus! {

/// Summary of one configured model instance.
#[derive(Debug, Clone, PartialEq, Eq)]
pub struct ModelProfile {
    pub name: String,
    pub adapter: String,
    pub model: String,
    pub active: bool,
}

/// One model instance (`[ai.providers.<name>]`).
#[derive(Debug, Clone)]
pub struct AiProviderEntry {
    pub provider: String,
    pub model: String,
    pub base_url: Option<String>,
    /// API key (may be empty for local adapters).
    pub api_key: String,
}

/// Model settings: `default` names the active instance of `providers`; the
/// other fields hold that instance for read-only use at run time.
#[derive(Debug)]
pub struct AiConfig {
    pub default: String,
    pub providers: StrMap<AiProviderEntry>,
    pub provider: String,
    pub model: String,
    pub base_url: Option<String>,
    pub api_key: String,
}

pub open spec fn entry_same(a: AiProviderEntry, b: AiProviderEntry) -> bool {
    a.provider@ == b.provider@ && a.model@ == b.model@ && opt_str_view(a.base_url) == opt_str_view(
        b.base_url,
    ) && a.api_key@ == b.api_key@
}

/// The active fields of `c` as an instance.
pub open spec fn active_entry_matches(c: AiConfig, e: AiProviderEntry) -> bool {
    e.provider@ == c.provider@ && e.model@ == c.model@ && opt_str_view(e.base_url) == opt_str_view(
        c.base_url,
    ) && e.api_key@ == c.api_key@
}

fn active_entry(c: &AiConfig) -> (r: AiProviderEntry)
    ensures
        active_entry_matches(*c, r),
{
    AiProviderEntry {
        provider: clone_str(&c.provider),
        model: clone_str(&c.model),
        base_url: clone_opt_str(&c.base_url),
        api_key: clone_str(&c.api_key),
    }
}

fn copy_entry(e: &AiProviderEntry) -> (r: AiProviderEntry)
    ensures
        entry_same(r, *e),
{
    AiProviderEntry {
        provider: clone_str(&e.provider),
        model: clone_str(&e.model),
        base_url: clone_opt_str(&e.base_url),
        api_key: clone_str(&e.api_key),
    }
}

/// The text of the error for an unknown instance name.
pub open spec fn unknown_profile_spec(name: Seq<char>, keys: Seq<Seq<char>>) -> Seq<char> {
    "未知模型配置 "@ + debug_str(name) + " — 可用: "@ + join_spec(keys, ", "@)
}

/// The instance name `normalize` settles on: `default`, or when that is
/// empty the adapter name, or else the first instance's name.
pub open spec fn normalized_default(c: AiConfig) -> Seq<char> {
    if c.default@.len() == 0 {
        if c.provider@.len() > 0 {
            c.provider@
        } else if c.providers.entries@.len() > 0 {
            c.providers.entries@[0].0@
        } else {
            c.default@
        }
    } else {
        c.default@
    }
}

/// What `normalize` makes of `o`: the settled name becomes `default`; an
/// instance of that name is taken over into the active fields, else the active
/// fields (when there are any) are recorded under it; other instances stay.
pub open spec fn normalized_from(o: AiConfig, n: AiConfig) -> bool {
    let d = normalized_default(o);
    &&& n.default@ == d
    &&& forall|other: Seq<char>| other != d ==> #[trigger] lookup(n.providers, other) == lookup(o.providers, other)
    &&& find_key(o.providers.keys(), d) >= 0 ==> {
        &&& n.providers.entries@ == o.providers.entries@
        &&& active_entry_matches(n, o.providers.entries@[find_key(o.providers.keys(), d)].1)
    }
    &&& find_key(o.providers.keys(), d) == -1 ==> {
        &&& n.provider@ == o.provider@
        &&& n.model@ == o.model@
        &&& opt_str_view(n.base_url) == opt_str_view(o.base_url)
        &&& n.api_key@ == o.api_key@
        &&& (o.provider@.len() > 0 || o.model@.len() > 0) ==> {
            &&& find_key(n.providers.keys(), d) >= 0
            &&& active_entry_matches(o, n.providers.entries@[find_key(n.providers.keys(), d)].1)
        }
        &&& !(o.provider@.len() > 0 || o.model@.len() > 0) ==> n.providers.entries@ == o.providers.entries@
    }
}

impl AiConfig {
    pub open spec fn wf(&self) -> bool {
        self.providers.wf()
    }

    /// Records the active fields as the instance `default` (adopting the
    /// adapter name as `default` when that is empty).
    pub fn snapshot_active(&mut self)
        requires
            old(self).wf(),
        ensures
            final(self).wf(),
            final(self).provider@ == old(self).provider@,
            final(self).model@ == old(self).model@,
            final(self).default@ == if old(self).default@.len() == 0 && old(self).provider@.len() > 0 {
                old(self).provider@
            } else {
                old(self).default@
            },
            final(self).default@.len() == 0 ==> final(self).providers.entries@ == old(self).providers.entries@,
            final(self).default@.len() > 0 ==> find_key(final(self).providers.keys(), final(self).default@) >= 0
                && final(self).providers.entries@[find_key(final(self).providers.keys(), final(self).default@)].0@ == final(self).default@
                && active_entry_matches(*old(self), final(self).providers.entries@[find_key(final(self).providers.keys(), final(self).default@)].1),
    {
        if self.default.as_str().unicode_len() == 0 && self.provider.as_str().unicode_len() > 0 {
            self.default = clone_str(&self.provider);
        }
        if self.default.as_str().unicode_len() == 0 {
            return;
        }
        let e = active_entry(self);
        let name = clone_str(&self.default);
        let ghost n = name;
        self.providers.insert(name, e);
        proof {
            crate::config::str_map::law_insert_then_find(old(self).providers, self.providers, n, e);
        }
    }

    /// Takes over the instance `default` into the active fields, or records
    /// the active fields under `default` when no such instance exists. An
    /// empty `default` first becomes the adapter name, else the first instance.
    pub fn normalize(&mut self)
        requires
            old(self).wf(),
        ensures
            final(self).wf(),
            normalized_from(*old(self), *final(self)),
    {
        if self.default.as_str().unicode_len() == 0 {
            if self.provider.as_str().unicode_len() > 0 {
                self.default = clone_str(&self.provider);
            } else if self.providers.entries.len() > 0 {
                self.default = clone_str(&self.providers.entries[0].0);
            }
        }
        match self.providers.index_of(self.default.as_str()) {
            Some(i) => {
                let e = copy_entry(&self.providers.entries[i].1);
                self.provider = e.provider;
                self.model = e.model;
                self.base_url = e.base_url;
                self.api_key = e.api_key;
            },
            None => {
                if self.provider.as_str().unicode_len() > 0 || self.model.as_str().unicode_len() > 0 {
                    let e = active_entry(self);
                    let name = clone_str(&self.default);
                    let ghost before = self.providers;
                    let ghost n = name;
                    self.providers.insert(name, e);
                    proof {
                        crate::config::str_map::law_insert_then_find(before, self.providers, n, e);
                        assert forall|other: Seq<char>| other != n@ implies #[trigger] lookup(self.providers, other) == lookup(before, other) by {
                            crate::config::str_map::law_insert_keeps_others(before, self.providers, n, e, other);
                        }
                    }
                }
            },
        }
    }

    /// Switches the active instance; an unknown name is an error listing the known ones.
    pub fn activate_provider(&mut self, name: &str) -> (r: Result<(), Error>)
        requires
            old(self).wf(),
        ensures
            final(self).wf(),
            r is Ok <==> find_key(old(self).providers.keys(), name@) >= 0,
            r is Ok ==> final(self).default@ == name@,
            r is Ok ==> active_entry_matches(*final(self), old(self).providers.entries@[find_key(old(self).providers.keys(), name@)].1),
            r matches Err(e) ==> (e matches Error::Message(m) && m@ == unknown_profile_spec(name@, old(self).providers.keys())),
            final(self).providers == old(self).providers,
            r is Err ==> *final(self) == *old(self),
    {
        match self.providers.index_of(name) {
            None => {
                let mut keys: Vec<Vec<char>> = Vec::new();
                let mut i: usize = 0;
                while i < self.providers.entries.len()
                    invariant
                        i <= self.providers.entries@.len(),
                        char_views(keys@) == self.providers.keys().take(i as int),
                    decreases self.providers.entries@.len() - i,
                {
                    let k = string_chars(&self.providers.entries[i].0);
                    proof {
                        crate::approval::shell_cmd::lemma_char_views_push(keys@, k);
                        assert(self.providers.keys().take(i + 1) =~= self.providers.keys().take(i as int).push(k@));
                    }
                    keys.push(k);
                    i += 1;
                }
                assert(self.providers.keys().take(i as int) =~= self.providers.keys());
                let mut m = chars_of("未知模型配置 ");
                let d = crate::messages::catalog::debug_string(name);
                push_all(&mut m, &string_chars(&d));
                push_str(&mut m, " — 可用: ");
                proof {
                    reveal_strlit(", ");
                }
                push_all(&mut m, &join_chars(&keys, &chars_of(", ")));
                Err(Error::Message(to_string(&m)))
            },
            Some(i) => {
                self.default = to_string(&chars_of(name));
                let e = copy_entry(&self.providers.entries[i].1);
                self.provider = e.provider;
                self.model = e.model;
                self.base_url = e.base_url;
                self.api_key = e.api_key;
                Ok(())
            },
        }
    }

    /// A copy for display: the active key and every instance's key become
    /// `***` (or stay empty when unset); everything else is kept.
    pub fn redacted(&self) -> (r: AiConfig)
        ensures
            r.default@ == self.default@,
            r.provider@ == self.provider@,
            r.model@ == self.model@,
            opt_str_view(r.base_url) == opt_str_view(self.base_url),
            r.api_key@ == mask_spec(self.api_key@),
            entry_keys(r.providers.entries@) == entry_keys(self.providers.entries@),
            forall|i: int| 0 <= i < r.providers.entries@.len() ==> {
                let (a, b) = (#[trigger] r.providers.entries@[i].1, self.providers.entries@[i].1);
                &&& a.provider@ == b.provider@
                &&& a.model@ == b.model@
                &&& opt_str_view(a.base_url) == opt_str_view(b.base_url)
                &&& a.api_key@ == mask_spec(b.api_key@)
            },
            self.wf() ==> r.wf(),
    {
        let mut entries: Vec<(String, AiProviderEntry)> = Vec::new();
        let mut i: usize = 0;
        while i < self.providers.entries.len()
            invariant
                i <= self.providers.entries@.len(),
                entries@.len() == i,
                forall|j: int| 0 <= j < i ==> {
                    let (a, b) = (#[trigger] entries@[j], self.providers.entries@[j]);
                    &&& a.0@ == b.0@
                    &&& a.1.provider@ == b.1.provider@
                    &&& a.1.model@ == b.1.model@
                    &&& opt_str_view(a.1.base_url) == opt_str_view(b.1.base_url)
                    &&& a.1.api_key@ == mask_spec(b.1.api_key@)
                },
            decreases self.providers.entries@.len() - i,
        {
            let (name, e) = &self.providers.entries[i];
            let masked = AiProviderEntry {
                provider: clone_str(&e.provider),
                model: clone_str(&e.model),
                base_url: clone_opt_str(&e.base_url),
                api_key: mask_secret(&e.api_key),
            };
            entries.push((clone_str(name), masked));
            i += 1;
        }
        assert(entry_keys(entries@) =~= entry_keys(self.providers.entries@));
        AiConfig {
            default: clone_str(&self.default),
            providers: StrMap { entries },
            provider: clone_str(&self.provider),
            model: clone_str(&self.model),
            base_url: clone_opt_str(&self.base_url),
            api_key: mask_secret(&self.api_key),
        }
    }

    /// All instances, ascending by name, with the active one marked.
    pub fn profiles(&self) -> (r: Vec<ModelProfile>)
        ensures
            r@.len() == self.providers.entries@.len(),
            forall|i: int| 0 <= i < r@.len() ==> {
                let p = #[trigger] r@[i];
                let (n, e) = self.providers.entries@[i];
                p.name@ == n@ && p.adapter@ == e.provider@ && p.model@ == e.model@ && p.active == (n@ == self.default@)
            },
    {
        let mut r: Vec<ModelProfile> = Vec::new();
        let mut i: usize = 0;
        while i < self.providers.entries.len()
            invariant
                i <= self.providers.entries@.len(),
                r@.len() == i,
                forall|k: int| 0 <= k < i ==> {
                    let p = #[trigger] r@[k];
                    let (n, e) = self.providers.entries@[k];
                    p.name@ == n@ && p.adapter@ == e.provider@ && p.model@ == e.model@ && p.active == (n@ == self.default@)
                },
            decreases self.providers.entries@.len() - i,
        {
            let (n, e) = (&self.providers.entries[i].0, &self.providers.entries[i].1);
            let active = str_eq(n.as_str(), self.default.as_str());
            r.push(ModelProfile { name: clone_str(n), adapter: clone_str(&e.provider), model: clone_str(&e.model), active });
            i += 1;
        }
        r
    }

    /// The instance named `name`.
    pub fn provider_entry(&self, name: &str) -> (r: Option<&AiProviderEntry>)
        ensures
            match r {
                Some(v) => find_key(self.providers.keys(), name@) >= 0 && *v == self.providers.entries@[find_key(self.providers.keys(), name@)].1,
                None => find_key(self.providers.keys(), name@) == -1,
            },
    {
        self.providers.get(name)
    }
}

impl AiConfig {
    /// The API key to send: none for the local adapters (`ollama`, `codex`);
    /// otherwise the trimmed key, which must not be empty.
    pub fn llm_api_key(&self) -> (r: Result<String, Error>)
        ensures
            (self.provider@ == "ollama"@ || self.provider@ == "codex"@) ==> (r matches Ok(k) && k@.len() == 0),
            !(self.provider@ == "ollama"@ || self.provider@ == "codex"@) ==> {
                &&& (r is Err <==> crate::text::trim_spec(self.api_key@).len() == 0)
                &&& (r matches Ok(k) ==> k@ == crate::text::trim_spec(self.api_key@))
                &&& (r matches Err(e) ==> (e matches Error::Localized(id, args)
                    && id == crate::messages::id::MessageId::MissingApiKey && args@.len() == 0))
            },
    {
        let key = crate::text::trim(&string_chars(&self.api_key));
        if str_eq(self.provider.as_str(), "ollama") || str_eq(self.provider.as_str(), "codex") {
            return Ok(String::new());
        }
        if key.len() == 0 {
            return Err(Error::localized(crate::messages::id::MessageId::MissingApiKey));
        }
        Ok(to_string(&key))
    }
}

/// A profile of the older `[ai.profiles.<name>]` form (the name is the adapter).
#[derive(Debug)]
pub struct LegacyProviderProfile {
    pub model: String,
    pub base_url: Option<String>,
    pub api_key: String,
}

/// `[ai]` as written: named instances, older profiles, and the older flat
/// fields of a single active instance.
#[derive(Debug)]
pub struct AiConfigWire {
    pub default: String,
    pub providers: StrMap<AiProviderEntry>,
    pub profiles: StrMap<LegacyProviderProfile>,
    pub provider: String,
    pub model: String,
    pub base_url: Option<String>,
    pub api_key: String,
}

/// The instance an older profile stands for.
pub open spec fn legacy_entry_matches(name: Seq<char>, p: LegacyProviderProfile, e: AiProviderEntry) -> bool {
    e.provider@ == name && e.model@ == p.model@ && opt_str_view(e.base_url) == opt_str_view(p.base_url)
        && e.api_key@ == p.api_key@
}

/// The instance the flat fields stand for.
pub open spec fn wire_entry_matches(w: AiConfigWire, e: AiProviderEntry) -> bool {
    e.provider@ == w.provider@ && e.model@ == w.model@ && opt_str_view(e.base_url) == opt_str_view(w.base_url)
        && e.api_key@ == w.api_key@
}

/// `default`, or the flat adapter name when `default` is empty.
pub open spec fn wire_default(w: AiConfigWire) -> Seq<char> {
    if w.default@.len() == 0 && w.provider@.len() > 0 {
        w.provider@
    } else {
        w.default@
    }
}

/// The flat fields name an instance to record under the default name.
pub open spec fn wire_adds_active(w: AiConfigWire) -> bool {
    (w.provider@.len() > 0 || w.model@.len() > 0) && wire_default(w).len() > 0
}

/// The instance named `k` after merging: a named instance first, else an
/// older profile, else the flat fields under the default name.
pub open spec fn merged_entry_ok(w: AiConfigWire, k: Seq<char>, e: Option<AiProviderEntry>) -> bool {
    match lookup(w.providers, k) {
        Some(x) => e == Some(x),
        None => match lookup(w.profiles, k) {
            Some(p) => e matches Some(y) && legacy_entry_matches(k, p, y),
            None => if wire_adds_active(w) && k == wire_default(w) {
                e matches Some(y) && wire_entry_matches(w, y)
            } else {
                e is None
            },
        },
    }
}

/// The settings read from the wire form before they are normalized.
pub open spec fn merged_from_wire(w: AiConfigWire, m: AiConfig) -> bool {
    &&& m.wf()
    &&& m.default@ == wire_default(w)
    &&& m.provider@ == w.provider@
    &&& m.model@ == w.model@
    &&& opt_str_view(m.base_url) == opt_str_view(w.base_url)
    &&& m.api_key@ == w.api_key@
    &&& forall|k: Seq<char>| #[trigger] merged_entry_ok(w, k, lookup(m.providers, k))
}

impl AiConfig {
    /// Reads `[ai]` from its written form: older profiles and the flat active
    /// fields become instances where no named instance has their name, then
    /// the result is normalized.
    pub fn from_wire(wire: AiConfigWire) -> (r: AiConfig)
        requires
            wire.providers.wf(),
            wire.profiles.wf(),
        ensures
            r.wf(),
            exists|m: AiConfig| merged_from_wire(wire, m) && normalized_from(m, r),
    {
        let ghost w = wire;
        let AiConfigWire { default, providers, profiles, provider, model, base_url, api_key } = wire;
        let mut providers = providers;
        let ghost pk = profiles.keys();
        let mut i: usize = 0;
        while i < profiles.entries.len()
            invariant
                i <= profiles.entries@.len(),
                profiles == w.profiles,
                w.profiles.wf(),
                pk == w.profiles.keys(),
                providers.wf(),
                forall|k: Seq<char>| #![trigger lookup(providers, k)] {
                    &&& (lookup(w.providers, k) is Some ==> lookup(providers, k) == lookup(w.providers, k))
                    &&& (lookup(w.providers, k) is None && 0 <= find_key(pk, k) < i ==> (lookup(providers, k) matches Some(y)
                        && legacy_entry_matches(k, w.profiles.entries@[find_key(pk, k)].1, y)))
                    &&& (lookup(w.providers, k) is None && !(0 <= find_key(pk, k) < i) ==> lookup(providers, k) is None)
                },
            decreases profiles.entries@.len() - i,
        {
            let name = &profiles.entries[i].0;
            proof {
                crate::config::str_map::lemma_find_at(w.profiles, i as int);
            }
            let ghost prev = providers;
            match providers.index_of(name.as_str()) {
                Some(_) => {
                    assert(lookup(providers, name@) is Some);
                },
                None => {
                    let p = &profiles.entries[i].1;
                    let e = AiProviderEntry {
                        provider: clone_str(name),
                        model: clone_str(&p.model),
                        base_url: clone_opt_str(&p.base_url),
                        api_key: clone_str(&p.api_key),
                    };
                    let n = clone_str(name);
                    let ghost before = providers;
                    let ghost gn = n;
                    let ghost ge = e;
                    assert(lookup(before, name@) is None);
                    providers.insert(n, e);
                    proof {
                        crate::config::str_map::law_insert_then_find(before, providers, gn, ge);
                        assert forall|k: Seq<char>| k != gn@ implies #[trigger] lookup(providers, k) == lookup(before, k) by {
                            crate::config::str_map::law_insert_keeps_others(before, providers, gn, ge, k);
                        }
                    }
                },
            }
            proof {
                assert forall|k: Seq<char>| #![trigger lookup(providers, k)] {
                    &&& (lookup(w.providers, k) is Some ==> lookup(providers, k) == lookup(w.providers, k))
                    &&& (lookup(w.providers, k) is None && 0 <= find_key(pk, k) < i + 1 ==> (lookup(providers, k) matches Some(y)
                        && legacy_entry_matches(k, w.profiles.entries@[find_key(pk, k)].1, y)))
                    &&& (lookup(w.providers, k) is None && !(0 <= find_key(pk, k) < i + 1) ==> lookup(providers, k) is None)
                } by {
                    crate::config::str_map::lemma_find_key(pk, k);
                    if k != name@ {
                        assert(lookup(providers, k) == lookup(prev, k));
                        if find_key(pk, k) == i {
                            assert(pk[i as int] == k);
                        }
                    }
                }
            }
            i += 1;
        }
        let d = if default.as_str().unicode_len() == 0 && provider.as_str().unicode_len() > 0 {
            clone_str(&provider)
        } else {
            default
        };
        if (provider.as_str().unicode_len() > 0 || model.as_str().unicode_len() > 0) && d.as_str().unicode_len() > 0 {
            if providers.index_of(d.as_str()).is_none() {
                let e = AiProviderEntry {
                    provider: clone_str(&provider),
                    model: clone_str(&model),
                    base_url: clone_opt_str(&base_url),
                    api_key: clone_str(&api_key),
                };
                let n = clone_str(&d);
                let ghost before = providers;
                let ghost gn = n;
                let ghost ge = e;
                providers.insert(n, e);
                proof {
                    crate::config::str_map::law_insert_then_find(before, providers, gn, ge);
                    assert forall|k: Seq<char>| k != gn@ implies #[trigger] lookup(providers, k) == lookup(before, k) by {
                        crate::config::str_map::law_insert_keeps_others(before, providers, gn, ge, k);
                    }
                }
            }
        }
        let mut config = AiConfig { default: d, providers, provider, model, base_url, api_key };
        let ghost m = config;
        proof {
            assert forall|k: Seq<char>| #[trigger] merged_entry_ok(w, k, lookup(m.providers, k)) by {
                crate::config::str_map::lemma_find_key(pk, k);
            }
        }
        config.normalize();
        config
    }
}

impl AiConfig {
    /// The instances as they are written back: a copy of `providers` with the
    /// active fields recorded under `default` (when it is set).
    pub fn providers_for_save(&self) -> (r: StrMap<AiProviderEntry>)
        requires
            self.wf(),
        ensures
            r.wf(),
            forall|k: Seq<char>| (self.default@.len() == 0 || k != self.default@) ==> {
                &&& (#[trigger] lookup(r, k) is Some <==> lookup(self.providers, k) is Some)
                &&& (lookup(r, k) matches Some(e) ==> entry_same(e, lookup(self.providers, k)->0))
            },
            self.default@.len() > 0 ==> (lookup(r, self.default@) matches Some(e) && active_entry_matches(*self, e)),
    {
        let mut out: Vec<(String, AiProviderEntry)> = Vec::new();
        let mut i: usize = 0;
        while i < self.providers.entries.len()
            invariant
                i <= self.providers.entries@.len(),
                out@.len() == i,
                forall|j: int| 0 <= j < i ==> (#[trigger] out@[j]).0@ == self.providers.entries@[j].0@
                    && entry_same(out@[j].1, self.providers.entries@[j].1),
            decreases self.providers.entries@.len() - i,
        {
            out.push((clone_str(&self.providers.entries[i].0), copy_entry(&self.providers.entries[i].1)));
            i += 1;
        }
        let mut r = StrMap { entries: out };
        assert(r.keys() =~= self.providers.keys());
        let ghost copy = r;
        proof {
            assert forall|k: Seq<char>| #![trigger lookup(copy, k)] {
                &&& (lookup(copy, k) is Some <==> lookup(self.providers, k) is Some)
                &&& (lookup(copy, k) matches Some(e) ==> entry_same(e, lookup(self.providers, k)->0))
            } by {
                crate::config::str_map::lemma_find_key(self.providers.keys(), k);
            }
        }
        if self.default.as_str().unicode_len() > 0 {
            let e = active_entry(self);
            let n = clone_str(&self.default);
            let ghost gn = n;
            let ghost ge = e;
            r.insert(n, e);
            proof {
                crate::config::str_map::law_insert_then_find(copy, r, gn, ge);
                assert forall|k: Seq<char>| k != gn@ implies #[trigger] lookup(r, k) == lookup(copy, k) by {
                    crate::config::str_map::law_insert_keeps_others(copy, r, gn, ge, k);
                }
            }
        }
        r
    }
}

} // verus!
