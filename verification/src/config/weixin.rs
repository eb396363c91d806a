//! Personal WeChat iLink settings (`[channels.weixin]`).
use vstd::prelude::*;
use crate::config::channel_text::{
    opt_str, opt_text, trimmed_or, trimmed_or_default, welcome_for_locale, welcome_spec,
};
use crate::error::Error;
use crate::messages::locale::Locale;
use crate::text::{str_trim, trim_spec};

verus! {

/// The iLink service used when no `base_url` is set.
pub const WEIXIN_DEFAULT_BASE_URL: &'static str = "https://ilinkai.weixin.qq.com";

#[derive(Debug, Clone, PartialEq, Eq)]
pub struct WeixinConfig {
    pub enabled: bool,
    pub bot_token: String,
    pub ilink_bot_id: String,
    pub ilink_user_id: String,
    pub base_url: Option<String>,
    pub welcome_message: Option<String>,
    pub bot_type: u32,
    pub poll_timeout_secs: u32,
}

impl Default for WeixinConfig {
    fn default() -> (r: Self)
        ensures
            r.enabled,
            r.bot_token@.len() == 0,
            r.ilink_bot_id@.len() == 0,
            r.ilink_user_id@.len() == 0,
            r.base_url is None,
            r.welcome_message is None,
            r.bot_type == 3,
            r.poll_timeout_secs == 35,
    {
        proof {
            reveal_strlit("");
        }
        WeixinConfig {
            enabled: true,
            bot_token: String::from_str(""),
            ilink_bot_id: String::from_str(""),
            ilink_user_id: String::from_str(""),
            base_url: None,
            welcome_message: None,
            bot_type: 3,
            poll_timeout_secs: 35,
        }
    }
}

impl WeixinConfig {
    /// The configured base URL (trimmed), or the default iLink service.
    pub fn base_url(&self) -> (r: &str)
        ensures
            r@ == trimmed_or(self.base_url, WEIXIN_DEFAULT_BASE_URL@),
    {
        trimmed_or_default(&self.base_url, WEIXIN_DEFAULT_BASE_URL)
    }

    pub fn welcome_message(&self) -> (r: &str)
        ensures
            r@ == opt_text(self.welcome_message),
    {
        opt_str(&self.welcome_message)
    }

    pub fn welcome_message_for_locale(&self, locale: Locale) -> (r: String)
        ensures
            r@ == welcome_spec(self.welcome_message, locale),
    {
        welcome_for_locale(&self.welcome_message, locale)
    }

    /// No bot token.
    pub fn is_empty(&self) -> (r: bool)
        ensures
            r == (trim_spec(self.bot_token@).len() == 0),
    {
        str_trim(self.bot_token.as_str()).unicode_len() == 0
    }

    /// Direct messages need no allow-list on iLink: always accepted.
    pub fn validate_dm_access(&self) -> (r: Result<(), Error>)
        ensures
            r is Ok,
    {
        Ok(())
    }
}

} // verus!
