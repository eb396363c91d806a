//! Rules shared by the channel settings: optional texts and direct-message access.
use vstd::prelude::*;
use crate::messages::catalog::message_spec;
use crate::messages::id::MessageId;
use crate::messages::locale::Locale;
use crate::messages::t;
use crate::text::{str_eq, str_trim, to_string, trim_spec, views};

verus! {

/// The text of an optional setting; empty when absent.
pub open spec fn opt_text(o: Option<String>) -> Seq<char> {
    match o {
        Some(s) => s@,
        None => seq![],
    }
}

/// The trimmed text of an optional setting, or `default` when that is empty.
pub open spec fn trimmed_or(o: Option<String>, default: Seq<char>) -> Seq<char> {
    if trim_spec(opt_text(o)).len() > 0 {
        trim_spec(opt_text(o))
    } else {
        default
    }
}

/// The welcome text: the configured one, else the default message of `locale`.
pub open spec fn welcome_spec(o: Option<String>, locale: Locale) -> Seq<char> {
    if opt_text(o).len() > 0 {
        opt_text(o)
    } else {
        message_spec(locale, MessageId::DefaultWelcome, seq![])
    }
}

/// Whether a direct message from `user` is accepted under `policy`.
pub open spec fn dm_allowed(policy: Seq<char>, allow: Seq<String>, user: Seq<char>) -> bool {
    policy == "open"@ || (policy == "allowlist"@ && exists|i: int|
        0 <= i < allow.len() && #[trigger] allow[i]@ == user)
}

pub fn opt_str(o: &Option<String>) -> (r: &str)
    ensures
        r@ == opt_text(*o),
{
    match o {
        Some(s) => s.as_str(),
        None => {
            proof {
                reveal_strlit("");
            }
            ""
        },
    }
}

pub fn trimmed_or_default<'a>(o: &'a Option<String>, default: &'a str) -> (r: &'a str)
    ensures
        r@ == trimmed_or(*o, default@),
{
    let t = str_trim(opt_str(o));
    if t.unicode_len() > 0 {
        t
    } else {
        default
    }
}

pub fn welcome_for_locale(o: &Option<String>, locale: Locale) -> (r: String)
    ensures
        r@ == welcome_spec(*o, locale),
{
    let custom = opt_str(o);
    if custom.unicode_len() == 0 {
        let none: Vec<String> = Vec::new();
        assert(views(none@) =~= Seq::<Seq<char>>::empty());
        t(locale, MessageId::DefaultWelcome, none.as_slice())
    } else {
        to_string(&crate::text::chars_of(custom))
    }
}

pub fn dm_allows(policy: &str, allow: &Vec<String>, user: &str) -> (r: bool)
    ensures
        r == dm_allowed(policy@, allow@, user@),
{
    if str_eq(policy, "open") {
        return true;
    }
    if !str_eq(policy, "allowlist") {
        return false;
    }
    let mut i: usize = 0;
    while i < allow.len()
        invariant
            i <= allow.len(),
            policy@ == "allowlist"@,
            forall|k: int| 0 <= k < i ==> (#[trigger] allow@[k])@ != user@,
        decreases allow.len() - i,
    {
        if str_eq(allow[i].as_str(), user) {
            return true;
        }
        i += 1;
    }
    false
}

} // verus!
