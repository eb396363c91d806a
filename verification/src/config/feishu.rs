//! Feishu (飞书) bot settings (`[channels.feishu]`).
use vstd::prelude::*;
use crate::config::channel_text::{
    dm_allowed, dm_allows, opt_str, opt_text, trimmed_or, trimmed_or_default, welcome_for_locale,
    welcome_spec,
};
use crate::error::Error;
use crate::messages::locale::Locale;
use crate::text::{chars_of, push_str, str_eq, str_trim, to_string, trim_spec};

verus! {

#[derive(Debug, Clone, PartialEq, Eq)]
pub struct FeishuConfig {
    pub enabled: bool,
    pub app_id: String,
    pub app_secret: String,
    pub domain: Option<String>,
    pub dm_policy: String,
    pub allow_from: Vec<String>,
    pub mention_enabled: bool,
    pub welcome_message: Option<String>,
}

impl Default for FeishuConfig {
    fn default() -> (r: Self)
        ensures
            r.enabled,
            r.app_id@.len() == 0,
            r.app_secret@.len() == 0,
            r.domain is None,
            r.dm_policy@ == "allowlist"@,
            r.allow_from@.len() == 0,
            r.mention_enabled,
            r.welcome_message is None,
    {
        proof {
            reveal_strlit("");
        }
        FeishuConfig {
            enabled: true,
            app_id: String::from_str(""),
            app_secret: String::from_str(""),
            domain: None,
            dm_policy: String::from_str("allowlist"),
            allow_from: Vec::new(),
            mention_enabled: true,
            welcome_message: None,
        }
    }
}

/// The refusal of `validate_dm_access` for Feishu.
pub open spec fn feishu_allowlist_empty_spec() -> Seq<char> {
    "feishu dm_policy=allowlist 但 allow_from 为空：请运行 `hi gateway setup` 填写飞书 open_id，或在 hi.toml 中设置 dm_policy=\"open\"（仅建议联调）"@
}

impl FeishuConfig {
    /// The configured API domain (trimmed), or `open.feishu.cn`.
    pub fn domain_host(&self) -> (r: &str)
        ensures
            r@ == trimmed_or(self.domain, "open.feishu.cn"@),
    {
        trimmed_or_default(&self.domain, "open.feishu.cn")
    }

    pub fn api_base(&self) -> (r: String)
        ensures
            r@ == "https://"@ + trimmed_or(self.domain, "open.feishu.cn"@) + "/open-apis"@,
    {
        let mut out = chars_of("https://");
        push_str(&mut out, self.domain_host());
        push_str(&mut out, "/open-apis");
        to_string(&out)
    }

    pub fn ws_base(&self) -> (r: String)
        ensures
            r@ == "https://"@ + trimmed_or(self.domain, "open.feishu.cn"@),
    {
        let mut out = chars_of("https://");
        push_str(&mut out, self.domain_host());
        to_string(&out)
    }

    pub fn allows_user(&self, open_id: &str) -> (r: bool)
        ensures
            r == dm_allowed(self.dm_policy@, self.allow_from@, open_id@),
    {
        dm_allows(self.dm_policy.as_str(), &self.allow_from, open_id)
    }

    pub fn welcome_message(&self) -> (r: &str)
        ensures
            r@ == opt_text(self.welcome_message),
    {
        opt_str(&self.welcome_message)
    }

    pub fn welcome_message_for_locale(&self, locale: Locale) -> (r: String)
        ensures
            r@ == welcome_spec(self.welcome_message, locale),
    {
        welcome_for_locale(&self.welcome_message, locale)
    }

    /// No app id and no app secret.
    pub fn is_empty(&self) -> (r: bool)
        ensures
            r == (trim_spec(self.app_id@).len() == 0 && trim_spec(self.app_secret@).len() == 0),
    {
        str_trim(self.app_id.as_str()).unicode_len() == 0 && str_trim(self.app_secret.as_str()).unicode_len() == 0
    }

    /// An allow-list policy needs some allowed user.
    pub fn validate_dm_access(&self) -> (r: Result<(), Error>)
        ensures
            r is Err <==> (self.dm_policy@ == "allowlist"@ && self.allow_from@.len() == 0),
            r matches Err(Error::Message(m)) ==> m@ == feishu_allowlist_empty_spec(),
            !(r matches Err(Error::Localized(_, _))),
    {
        if str_eq(self.dm_policy.as_str(), "allowlist") && self.allow_from.len() == 0 {
            return Err(
                Error::Message(
                    String::from_str(
                        "feishu dm_policy=allowlist 但 allow_from 为空：请运行 `hi gateway setup` 填写飞书 open_id，或在 hi.toml 中设置 dm_policy=\"open\"（仅建议联调）",
                    ),
                ),
            );
        }
        Ok(())
    }
}

} // verus!
