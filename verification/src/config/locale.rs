//! UI language preference (`[locale]`).
use vstd::prelude::*;
use crate::messages::locale::{locale_str_spec, Locale};

verus! {

/// UI language preference; no `lang` means the system language on every run.
#[derive(Debug, Clone, PartialEq, Eq)]
pub struct LocaleConfig {
    pub lang: Option<String>,
}

impl Default for LocaleConfig {
    fn default() -> (r: Self)
        ensures
            r.lang is None,
    {
        LocaleConfig { lang: None }
    }
}

impl LocaleConfig {
    pub fn set_lang(&mut self, locale: Locale)
        ensures
            final(self).lang is Some,
            final(self).lang->0@ == locale_str_spec(locale),
    {
        self.lang = Some(String::from_str(locale.as_str()));
    }
}

} // verus!
