//! Supported UI locales.
use vstd::prelude::*;
use crate::text::{ascii_lower_spec, chars_of, eq_str, to_ascii_lower, trim, trim_spec};

verus! {

/// Supported UI locales.
#[derive(Debug, Clone, Copy, PartialEq, Eq, Structural)]
pub enum Locale {
    Zh,
    En,
}

impl Default for Locale {
    fn default() -> (r: Self)
        ensures
            r == Locale::Zh,
    {
        Locale::Zh
    }
}

pub open spec fn is_tag_separator(c: char) -> bool {
    c == '-' || c == '_' || c == '.'
}

/// Length of the leading part of `s` before any `-`, `_` or `.`.
pub open spec fn primary_len(s: Seq<char>, i: int) -> int
    decreases s.len() - i,
{
    if i < 0 || i >= s.len() || is_tag_separator(s[i]) {
        i
    } else {
        primary_len(s, i + 1)
    }
}

/// The language part of a locale tag, lower-cased: `zh_CN.UTF-8` gives `zh`.
pub open spec fn primary_subtag(tag: Seq<char>) -> Seq<char> {
    let t = ascii_lower_spec(trim_spec(tag));
    t.take(primary_len(t, 0))
}

pub open spec fn locale_from_tag_spec(tag: Seq<char>) -> Option<Locale> {
    let p = primary_subtag(tag);
    if p == "zh"@ || p == "cn"@ {
        Some(Locale::Zh)
    } else if p == "en"@ {
        Some(Locale::En)
    } else {
        None
    }
}

pub open spec fn locale_str_spec(l: Locale) -> Seq<char> {
    match l {
        Locale::Zh => "zh"@,
        Locale::En => "en"@,
    }
}

proof fn lemma_primary_len_bounds(s: Seq<char>, i: int)
    requires
        0 <= i <= s.len(),
    ensures
        i <= primary_len(s, i) <= s.len(),
    decreases s.len() - i,
{
    if i < s.len() && !is_tag_separator(s[i]) {
        lemma_primary_len_bounds(s, i + 1);
    }
}

/// A locale's own tag (`zh`, `en`) reads back as that locale.
pub proof fn law_locale_tag_round_trip(l: Locale)
    ensures
        locale_from_tag_spec(locale_str_spec(l)) == Some(l),
{
    reveal_strlit("zh");
    reveal_strlit("en");
    reveal_strlit("cn");
    let s = locale_str_spec(l);
    assert(s.len() == 2);
    assert(!crate::text::is_ws_spec(s[0]) && !crate::text::is_ws_spec(s[1]));
    assert(crate::text::trim_start_spec(s) == s);
    assert(crate::text::trim_end_spec(s) == s);
    let t = ascii_lower_spec(trim_spec(s));
    assert(t =~= s);
    assert(primary_len(t, 2) == 2);
    assert(primary_len(t, 1) == 2);
    assert(primary_len(t, 0) == 2);
    assert(t.take(2) =~= s);
}

impl Locale {
    pub fn as_str(self) -> (r: &'static str)
        ensures
            r@ == locale_str_spec(self),
    {
        match self {
            Locale::Zh => "zh",
            Locale::En => "en",
        }
    }

    /// Locale of a tag such as `zh`, `en-US` or `zh_CN.UTF-8`.
    pub fn from_tag(tag: &str) -> (r: Option<Locale>)
        ensures
            r == locale_from_tag_spec(tag@),
    {
        let tv = chars_of(tag);
        let t = to_ascii_lower(&trim(&tv));
        let mut k: usize = 0;
        while k < t.len() && !(t[k] == '-' || t[k] == '_' || t[k] == '.')
            invariant
                k <= t.len(),
                primary_len(t@, k as int) == primary_len(t@, 0),
            decreases t.len() - k,
        {
            k += 1;
        }
        let mut p: Vec<char> = Vec::new();
        let mut i: usize = 0;
        while i < k
            invariant
                i <= k <= t.len(),
                p@ == t@.take(i as int),
            decreases k - i,
        {
            p.push(t[i]);
            assert(t@.take(i + 1) =~= t@.take(i as int).push(t@[i as int]));
            i += 1;
        }
        if eq_str(&p, "zh") || eq_str(&p, "cn") {
            Some(Locale::Zh)
        } else if eq_str(&p, "en") {
            Some(Locale::En)
        } else {
            None
        }
    }
}

impl std::str::FromStr for Locale {
    type Err = ();

    fn from_str(s: &str) -> (r: Result<Self, Self::Err>)
        ensures
            r == match locale_from_tag_spec(s@) {
                Some(l) => Ok::<Locale, ()>(l),
                None => Err::<Locale, ()>(()),
            },
    {
        match Locale::from_tag(s) {
            Some(l) => Ok(l),
            None => Err(()),
        }
    }
}

/// The first of `tags` that names a locale, or English.
pub open spec fn first_locale_spec(tags: Seq<Seq<char>>) -> Locale
    decreases tags.len(),
{
    if tags.len() == 0 {
        Locale::En
    } else if locale_from_tag_spec(tags[0]) is Some {
        locale_from_tag_spec(tags[0])->0
    } else {
        first_locale_spec(tags.drop_first())
    }
}

/// The locale of the system: the first of `LC_ALL`, `LC_MESSAGES`, `LANG`
/// (the values that are set, in that order) that names one, else English.
pub fn detect_system_locale(vars: &Vec<String>) -> (r: Locale)
    ensures
        r == first_locale_spec(crate::text::views(vars@)),
{
    let mut i: usize = 0;
    let ghost all = crate::text::views(vars@);
    assert(all.skip(0) =~= all);
    while i < vars.len()
        invariant
            i <= vars@.len(),
            all == crate::text::views(vars@),
            first_locale_spec(all) == first_locale_spec(all.skip(i as int)),
        decreases vars@.len() - i,
    {
        assert(all.skip(i as int)[0] == vars@[i as int]@);
        assert(all.skip(i as int).drop_first() =~= all.skip(i + 1));
        match Locale::from_tag(vars[i].as_str()) {
            Some(l) => {
                return l;
            },
            None => {},
        }
        i += 1;
    }
    assert(all.skip(i as int) =~= Seq::<Seq<char>>::empty());
    Locale::En
}

/// The UI locale: `HI_LOCALE`, then the configured language, then the
/// system's, each when it names a locale.
pub fn resolve_locale(hi_locale: Option<&str>, config_lang: Option<&str>, system: Locale) -> (r: Locale)
    ensures
        r == match hi_locale {
            Some(e) if locale_from_tag_spec(e@) is Some => locale_from_tag_spec(e@)->0,
            _ => match config_lang {
                Some(c) if locale_from_tag_spec(c@) is Some => locale_from_tag_spec(c@)->0,
                _ => system,
            },
        },
{
    if let Some(e) = hi_locale {
        if let Some(l) = Locale::from_tag(e) {
            return l;
        }
    }
    if let Some(c) = config_lang {
        if let Some(l) = Locale::from_tag(c) {
            return l;
        }
    }
    system
}

} // verus!
