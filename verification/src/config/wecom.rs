//! WeCom (企业微信) bot settings (`[channels.wecom]`).
use vstd::prelude::*;
use crate::config::channel_text::{
    dm_allowed, dm_allows, opt_str, opt_text, welcome_for_locale, welcome_spec,
};
use crate::error::Error;
use crate::messages::locale::Locale;
use crate::text::{str_eq, str_trim, trim_spec};

verus! {

#[derive(Debug, Clone, PartialEq, Eq)]
pub struct WeComConfig {
    pub enabled: bool,
    pub bot_id: String,
    pub secret: String,
    pub websocket_url: Option<String>,
    pub dm_policy: String,
    pub allow_from: Vec<String>,
    pub welcome_message: Option<String>,
}

impl Default for WeComConfig {
    fn default() -> (r: Self)
        ensures
            r.enabled,
            r.bot_id@.len() == 0,
            r.secret@.len() == 0,
            r.websocket_url is None,
            r.dm_policy@ == "allowlist"@,
            r.allow_from@.len() == 0,
            r.welcome_message is None,
    {
        proof {
            reveal_strlit("");
        }
        WeComConfig {
            enabled: true,
            bot_id: String::from_str(""),
            secret: String::from_str(""),
            websocket_url: None,
            dm_policy: String::from_str("allowlist"),
            allow_from: Vec::new(),
            welcome_message: None,
        }
    }
}

/// The refusal of `validate_dm_access` for WeCom.
pub open spec fn wecom_allowlist_empty_spec() -> Seq<char> {
    "wecom dm_policy=allowlist 但 allow_from 为空：请运行 `hi gateway setup` 填写 userid，或在 hi.toml 中设置 dm_policy=\"open\"（仅建议联调）"@
}

impl WeComConfig {
    /// The configured WebSocket URL, or the public endpoint when empty.
    pub fn websocket_url(&self) -> (r: &str)
        ensures
            r@ == (if opt_text(self.websocket_url).len() > 0 {
                opt_text(self.websocket_url)
            } else {
                "wss://openws.work.weixin.qq.com"@
            }),
    {
        let u = opt_str(&self.websocket_url);
        if u.unicode_len() > 0 {
            u
        } else {
            "wss://openws.work.weixin.qq.com"
        }
    }

    pub fn allows_dm(&self, wecom_user_id: &str) -> (r: bool)
        ensures
            r == dm_allowed(self.dm_policy@, self.allow_from@, wecom_user_id@),
    {
        dm_allows(self.dm_policy.as_str(), &self.allow_from, wecom_user_id)
    }

    pub fn welcome_message(&self) -> (r: &str)
        ensures
            r@ == opt_text(self.welcome_message),
    {
        opt_str(&self.welcome_message)
    }

    pub fn welcome_message_for_locale(&self, locale: Locale) -> (r: String)
        ensures
            r@ == welcome_spec(self.welcome_message, locale),
    {
        welcome_for_locale(&self.welcome_message, locale)
    }

    /// No bot id and no secret.
    pub fn is_empty(&self) -> (r: bool)
        ensures
            r == (trim_spec(self.bot_id@).len() == 0 && trim_spec(self.secret@).len() == 0),
    {
        str_trim(self.bot_id.as_str()).unicode_len() == 0 && str_trim(self.secret.as_str()).unicode_len() == 0
    }

    /// An allow-list policy needs some allowed user.
    pub fn validate_dm_access(&self) -> (r: Result<(), Error>)
        ensures
            r is Err <==> (self.dm_policy@ == "allowlist"@ && self.allow_from@.len() == 0),
            r matches Err(Error::Message(m)) ==> m@ == wecom_allowlist_empty_spec(),
            !(r matches Err(Error::Localized(_, _))),
    {
        if str_eq(self.dm_policy.as_str(), "allowlist") && self.allow_from.len() == 0 {
            return Err(
                Error::Message(
                    String::from_str(
                        "wecom dm_policy=allowlist 但 allow_from 为空：请运行 `hi gateway setup` 填写 userid，或在 hi.toml 中设置 dm_policy=\"open\"（仅建议联调）",
                    ),
                ),
            );
        }
        Ok(())
    }
}

} // verus!
