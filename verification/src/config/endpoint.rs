//! One runnable gateway endpoint: a platform and an account on it.
use vstd::prelude::*;
use crate::config::feishu::FeishuConfig;
use crate::config::http::HttpConfig;
use crate::config::wecom::WeComConfig;
use crate::config::weixin::WeixinConfig;
use crate::text::{chars_of, push_str, str_eq, to_string};

verus! {

/// A gateway endpoint; `id` is the config id such as `wecom` or `wecom:support`.
#[derive(Debug, Clone, PartialEq, Eq)]
pub struct ChannelEndpoint {
    pub id: String,
    pub kind: ChannelEndpointKind,
}

#[derive(Debug, Clone, PartialEq, Eq)]
pub enum ChannelEndpointKind {
    WeCom { account: String, config: WeComConfig },
    Feishu { account: String, config: FeishuConfig },
    Weixin { account: String, config: WeixinConfig },
    Http { account: String, config: HttpConfig },
}

/// `platform` for the default account, else `platform:account`.
pub open spec fn endpoint_id_spec(platform: Seq<char>, account: Seq<char>) -> Seq<char> {
    if account == "default"@ {
        platform
    } else {
        platform + ":"@ + account
    }
}

pub fn endpoint_id_for_account(platform: &str, account: &str) -> (r: String)
    ensures
        r@ == endpoint_id_spec(platform@, account@),
{
    if str_eq(account, "default") {
        to_string(&chars_of(platform))
    } else {
        let mut v = chars_of(platform);
        push_str(&mut v, ":");
        push_str(&mut v, account);
        to_string(&v)
    }
}

impl ChannelEndpoint {
    pub fn wecom(account: String, config: WeComConfig) -> (r: Self)
        ensures
            r.id@ == endpoint_id_spec("wecom"@, account@),
            r.kind == (ChannelEndpointKind::WeCom { account, config }),
    {
        let id = endpoint_id_for_account("wecom", account.as_str());
        ChannelEndpoint { id, kind: ChannelEndpointKind::WeCom { account, config } }
    }

    pub fn feishu(account: String, config: FeishuConfig) -> (r: Self)
        ensures
            r.id@ == endpoint_id_spec("feishu"@, account@),
            r.kind == (ChannelEndpointKind::Feishu { account, config }),
    {
        let id = endpoint_id_for_account("feishu", account.as_str());
        ChannelEndpoint { id, kind: ChannelEndpointKind::Feishu { account, config } }
    }

    pub fn weixin(account: String, config: WeixinConfig) -> (r: Self)
        ensures
            r.id@ == endpoint_id_spec("weixin"@, account@),
            r.kind == (ChannelEndpointKind::Weixin { account, config }),
    {
        let id = endpoint_id_for_account("weixin", account.as_str());
        ChannelEndpoint { id, kind: ChannelEndpointKind::Weixin { account, config } }
    }

    pub fn http(account: String, config: HttpConfig) -> (r: Self)
        ensures
            r.id@ == endpoint_id_spec("http"@, account@),
            r.kind == (ChannelEndpointKind::Http { account, config }),
    {
        let id = endpoint_id_for_account("http", account.as_str());
        ChannelEndpoint { id, kind: ChannelEndpointKind::Http { account, config } }
    }
}

} // verus!
