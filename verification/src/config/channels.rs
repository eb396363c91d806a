//! Message-channel accounts (`[channels.wecom]`, `[channels.feishu]`, `[channels.weixin]`).
use vstd::prelude::*;
use crate::config::endpoint::{
    endpoint_id_for_account, endpoint_id_spec, ChannelEndpoint, ChannelEndpointKind,
};
use crate::config::feishu::FeishuConfig;
use crate::config::str_map::{entry_keys, find_key, keep_flagged, lookup, StrMap};
use crate::config::wecom::WeComConfig;
use crate::config::weixin::WeixinConfig;
use crate::error::Error;
use crate::messages::id::MessageId;
use crate::text::{
    chars_of, clone_opt_str, clone_str, clone_str_vec, opt_str_view, slice_chars, sorted_distinct,
    sorted_distinct_chars, starts_with_spec, starts_with_str, str_eq, str_trim, string_chars,
    to_string, trim_spec, views, char_views,
};

verus! {

// ---------------------------------------------------------------- copies

pub open spec fn wecom_same(a: WeComConfig, b: WeComConfig) -> bool {
    a.enabled == b.enabled && a.bot_id@ == b.bot_id@ && a.secret@ == b.secret@ && opt_str_view(a.websocket_url)
        == opt_str_view(b.websocket_url) && a.dm_policy@ == b.dm_policy@ && views(a.allow_from@)
        == views(b.allow_from@) && opt_str_view(a.welcome_message) == opt_str_view(b.welcome_message)
}

pub open spec fn feishu_same(a: FeishuConfig, b: FeishuConfig) -> bool {
    a.enabled == b.enabled && a.app_id@ == b.app_id@ && a.app_secret@ == b.app_secret@
        && opt_str_view(a.domain) == opt_str_view(b.domain) && a.dm_policy@ == b.dm_policy@ && views(
        a.allow_from@,
    ) == views(b.allow_from@) && a.mention_enabled == b.mention_enabled && opt_str_view(
        a.welcome_message,
    ) == opt_str_view(b.welcome_message)
}

pub open spec fn weixin_same(a: WeixinConfig, b: WeixinConfig) -> bool {
    a.enabled == b.enabled && a.bot_token@ == b.bot_token@ && a.ilink_bot_id@ == b.ilink_bot_id@
        && a.ilink_user_id@ == b.ilink_user_id@ && opt_str_view(a.base_url) == opt_str_view(b.base_url)
        && opt_str_view(a.welcome_message) == opt_str_view(b.welcome_message) && a.bot_type == b.bot_type
        && a.poll_timeout_secs == b.poll_timeout_secs
}

fn copy_wecom(c: &WeComConfig) -> (r: WeComConfig)
    ensures
        wecom_same(r, *c),
{
    WeComConfig {
        enabled: c.enabled,
        bot_id: clone_str(&c.bot_id),
        secret: clone_str(&c.secret),
        websocket_url: clone_opt_str(&c.websocket_url),
        dm_policy: clone_str(&c.dm_policy),
        allow_from: clone_str_vec(&c.allow_from),
        welcome_message: clone_opt_str(&c.welcome_message),
    }
}

fn copy_feishu(c: &FeishuConfig) -> (r: FeishuConfig)
    ensures
        feishu_same(r, *c),
{
    FeishuConfig {
        enabled: c.enabled,
        app_id: clone_str(&c.app_id),
        app_secret: clone_str(&c.app_secret),
        domain: clone_opt_str(&c.domain),
        dm_policy: clone_str(&c.dm_policy),
        allow_from: clone_str_vec(&c.allow_from),
        mention_enabled: c.mention_enabled,
        welcome_message: clone_opt_str(&c.welcome_message),
    }
}

fn copy_weixin(c: &WeixinConfig) -> (r: WeixinConfig)
    ensures
        weixin_same(r, *c),
{
    WeixinConfig {
        enabled: c.enabled,
        bot_token: clone_str(&c.bot_token),
        ilink_bot_id: clone_str(&c.ilink_bot_id),
        ilink_user_id: clone_str(&c.ilink_user_id),
        base_url: clone_opt_str(&c.base_url),
        welcome_message: clone_opt_str(&c.welcome_message),
        bot_type: c.bot_type,
        poll_timeout_secs: c.poll_timeout_secs,
    }
}

// ---------------------------------------------------------------- emptiness

pub open spec fn wecom_empty(c: WeComConfig) -> bool {
    trim_spec(c.bot_id@).len() == 0 && trim_spec(c.secret@).len() == 0
}

pub open spec fn feishu_empty(c: FeishuConfig) -> bool {
    trim_spec(c.app_id@).len() == 0 && trim_spec(c.app_secret@).len() == 0
}

pub open spec fn weixin_empty(c: WeixinConfig) -> bool {
    trim_spec(c.bot_token@).len() == 0
}

/// The settings of a named account, unless missing or empty.
pub open spec fn wecom_lookup(m: StrMap<WeComConfig>, name: Seq<char>) -> Option<WeComConfig> {
    let i = find_key(m.keys(), name);
    if i >= 0 && !wecom_empty(m.entries@[i].1) {
        Some(m.entries@[i].1)
    } else {
        None
    }
}

pub open spec fn feishu_lookup(m: StrMap<FeishuConfig>, name: Seq<char>) -> Option<FeishuConfig> {
    let i = find_key(m.keys(), name);
    if i >= 0 && !feishu_empty(m.entries@[i].1) {
        Some(m.entries@[i].1)
    } else {
        None
    }
}

pub open spec fn weixin_lookup(m: StrMap<WeixinConfig>, name: Seq<char>) -> Option<WeixinConfig> {
    let i = find_key(m.keys(), name);
    if i >= 0 && !weixin_empty(m.entries@[i].1) {
        Some(m.entries@[i].1)
    } else {
        None
    }
}

/// A localized error for message `id` with the given arguments.
pub open spec fn is_localized(e: Error, id: MessageId, args: Seq<Seq<char>>) -> bool {
    e matches Error::Localized(i, a) && i == id && views(a@) == args
}

/// Accounts of the three message platforms, each ascending by account name.
#[derive(Debug)]
pub struct ChannelsConfig {
    pub wecom_accounts: StrMap<WeComConfig>,
    pub feishu_accounts: StrMap<FeishuConfig>,
    pub weixin_accounts: StrMap<WeixinConfig>,
}

/// Ids of enabled, non-empty accounts, platform by platform.
pub open spec fn wecom_ids(e: Seq<(String, WeComConfig)>) -> Seq<Seq<char>>
    decreases e.len(),
{
    if e.len() == 0 {
        seq![]
    } else {
        wecom_ids(e.drop_last()) + if !wecom_empty(e.last().1) && e.last().1.enabled {
            seq![endpoint_id_spec("wecom"@, e.last().0@)]
        } else {
            seq![]
        }
    }
}

pub open spec fn feishu_ids(e: Seq<(String, FeishuConfig)>) -> Seq<Seq<char>>
    decreases e.len(),
{
    if e.len() == 0 {
        seq![]
    } else {
        feishu_ids(e.drop_last()) + if !feishu_empty(e.last().1) && e.last().1.enabled {
            seq![endpoint_id_spec("feishu"@, e.last().0@)]
        } else {
            seq![]
        }
    }
}

pub open spec fn weixin_ids(e: Seq<(String, WeixinConfig)>) -> Seq<Seq<char>>
    decreases e.len(),
{
    if e.len() == 0 {
        seq![]
    } else {
        weixin_ids(e.drop_last()) + if !weixin_empty(e.last().1) && e.last().1.enabled {
            seq![endpoint_id_spec("weixin"@, e.last().0@)]
        } else {
            seq![]
        }
    }
}

/// Which account an endpoint id names: 0 WeCom, 1 Feishu, 2 Weixin.
pub open spec fn parse_endpoint_id(id: Seq<char>) -> Option<(int, Seq<char>)> {
    if id == "wecom"@ {
        Some((0, "default"@))
    } else if starts_with_spec(id, "wecom:"@) {
        Some((0, id.skip(6)))
    } else if id == "feishu"@ {
        Some((1, "default"@))
    } else if starts_with_spec(id, "feishu:"@) {
        Some((1, id.skip(7)))
    } else if id == "weixin"@ {
        Some((2, "default"@))
    } else if starts_with_spec(id, "weixin:"@) {
        Some((2, id.skip(7)))
    } else {
        None
    }
}

pub open spec fn mask_spec(v: Seq<char>) -> Seq<char> {
    if v.len() == 0 {
        seq![]
    } else {
        "***"@
    }
}

pub(crate) fn mask_secret(v: &String) -> (r: String)
    ensures
        r@ == mask_spec(v@),
{
    if v.as_str().unicode_len() == 0 {
        proof {
            reveal_strlit("");
        }
        to_string(&chars_of(""))
    } else {
        to_string(&chars_of("***"))
    }
}

impl ChannelsConfig {
    /// All three account maps keep their names ascending.
    pub open spec fn wf(&self) -> bool {
        self.wecom_accounts.wf() && self.feishu_accounts.wf() && self.weixin_accounts.wf()
    }

    pub fn new() -> (r: Self)
        ensures
            r.wf(),
            r.wecom_accounts.entries@.len() == 0,
            r.feishu_accounts.entries@.len() == 0,
            r.weixin_accounts.entries@.len() == 0,
    {
        ChannelsConfig {
            wecom_accounts: StrMap::new(),
            feishu_accounts: StrMap::new(),
            weixin_accounts: StrMap::new(),
        }
    }

    pub fn wecom_accounts(&self) -> (r: &StrMap<WeComConfig>)
        ensures
            *r == self.wecom_accounts,
    {
        &self.wecom_accounts
    }

    pub fn feishu_accounts(&self) -> (r: &StrMap<FeishuConfig>)
        ensures
            *r == self.feishu_accounts,
    {
        &self.feishu_accounts
    }

    pub fn weixin_accounts(&self) -> (r: &StrMap<WeixinConfig>)
        ensures
            *r == self.weixin_accounts,
    {
        &self.weixin_accounts
    }

    /// Sets an account; empty settings remove it instead.
    pub fn set_wecom_account(&mut self, account: String, config: WeComConfig)
        requires
            old(self).wf(),
        ensures
            final(self).wf(),
            final(self).feishu_accounts == old(self).feishu_accounts,
            final(self).weixin_accounts == old(self).weixin_accounts,
            wecom_empty(config) ==> final(self).wecom_accounts.entries@ == if find_key(old(self).wecom_accounts.keys(), account@) >= 0 {
                old(self).wecom_accounts.entries@.remove(find_key(old(self).wecom_accounts.keys(), account@))
            } else {
                old(self).wecom_accounts.entries@
            },
            !wecom_empty(config) ==> find_key(final(self).wecom_accounts.keys(), account@) >= 0
                && final(self).wecom_accounts.entries@[find_key(final(self).wecom_accounts.keys(), account@)] == (account, config),
            !wecom_empty(config) && find_key(old(self).wecom_accounts.keys(), account@) >= 0
                ==> final(self).wecom_accounts.entries@ == old(self).wecom_accounts.entries@.update(
                find_key(old(self).wecom_accounts.keys(), account@),
                (account, config),
            ),
            !wecom_empty(config) && find_key(old(self).wecom_accounts.keys(), account@) == -1 ==> exists|p: int|
                0 <= p <= old(self).wecom_accounts.entries@.len() && final(self).wecom_accounts.entries@
                    == old(self).wecom_accounts.entries@.insert(p, (account, config)),
            !wecom_empty(config) ==> forall|k: Seq<char>| k != account@ ==> #[trigger] lookup(final(self).wecom_accounts, k) == lookup(
                old(self).wecom_accounts,
                k,
            ),
    {
        if config.is_empty() {
            self.wecom_accounts.remove(account.as_str());
        } else {
            let ghost a = account;
            self.wecom_accounts.insert(account, config);
            proof {
                crate::config::str_map::law_insert_then_find(old(self).wecom_accounts, self.wecom_accounts, a, config);
                assert forall|k: Seq<char>| k != a@ implies #[trigger] lookup(self.wecom_accounts, k) == lookup(
                    old(self).wecom_accounts,
                    k,
                ) by {
                    crate::config::str_map::law_insert_keeps_others(old(self).wecom_accounts, self.wecom_accounts, a, config, k);
                }
            }
        }
    }

    /// Sets an account; empty settings remove it instead.
    pub fn set_feishu_account(&mut self, account: String, config: FeishuConfig)
        requires
            old(self).wf(),
        ensures
            final(self).wf(),
            final(self).wecom_accounts == old(self).wecom_accounts,
            final(self).weixin_accounts == old(self).weixin_accounts,
            feishu_empty(config) ==> final(self).feishu_accounts.entries@ == if find_key(old(self).feishu_accounts.keys(), account@) >= 0 {
                old(self).feishu_accounts.entries@.remove(find_key(old(self).feishu_accounts.keys(), account@))
            } else {
                old(self).feishu_accounts.entries@
            },
            !feishu_empty(config) ==> find_key(final(self).feishu_accounts.keys(), account@) >= 0
                && final(self).feishu_accounts.entries@[find_key(final(self).feishu_accounts.keys(), account@)] == (account, config),
            !feishu_empty(config) && find_key(old(self).feishu_accounts.keys(), account@) >= 0
                ==> final(self).feishu_accounts.entries@ == old(self).feishu_accounts.entries@.update(
                find_key(old(self).feishu_accounts.keys(), account@),
                (account, config),
            ),
            !feishu_empty(config) && find_key(old(self).feishu_accounts.keys(), account@) == -1 ==> exists|p: int|
                0 <= p <= old(self).feishu_accounts.entries@.len() && final(self).feishu_accounts.entries@
                    == old(self).feishu_accounts.entries@.insert(p, (account, config)),
            !feishu_empty(config) ==> forall|k: Seq<char>| k != account@ ==> #[trigger] lookup(final(self).feishu_accounts, k) == lookup(
                old(self).feishu_accounts,
                k,
            ),
    {
        if config.is_empty() {
            self.feishu_accounts.remove(account.as_str());
        } else {
            let ghost a = account;
            self.feishu_accounts.insert(account, config);
            proof {
                crate::config::str_map::law_insert_then_find(old(self).feishu_accounts, self.feishu_accounts, a, config);
                assert forall|k: Seq<char>| k != a@ implies #[trigger] lookup(self.feishu_accounts, k) == lookup(
                    old(self).feishu_accounts,
                    k,
                ) by {
                    crate::config::str_map::law_insert_keeps_others(old(self).feishu_accounts, self.feishu_accounts, a, config, k);
                }
            }
        }
    }

    /// Sets an account; empty settings remove it instead.
    pub fn set_weixin_account(&mut self, account: String, config: WeixinConfig)
        requires
            old(self).wf(),
        ensures
            final(self).wf(),
            final(self).wecom_accounts == old(self).wecom_accounts,
            final(self).feishu_accounts == old(self).feishu_accounts,
            weixin_empty(config) ==> final(self).weixin_accounts.entries@ == if find_key(old(self).weixin_accounts.keys(), account@) >= 0 {
                old(self).weixin_accounts.entries@.remove(find_key(old(self).weixin_accounts.keys(), account@))
            } else {
                old(self).weixin_accounts.entries@
            },
            !weixin_empty(config) ==> find_key(final(self).weixin_accounts.keys(), account@) >= 0
                && final(self).weixin_accounts.entries@[find_key(final(self).weixin_accounts.keys(), account@)] == (account, config),
            !weixin_empty(config) && find_key(old(self).weixin_accounts.keys(), account@) >= 0
                ==> final(self).weixin_accounts.entries@ == old(self).weixin_accounts.entries@.update(
                find_key(old(self).weixin_accounts.keys(), account@),
                (account, config),
            ),
            !weixin_empty(config) && find_key(old(self).weixin_accounts.keys(), account@) == -1 ==> exists|p: int|
                0 <= p <= old(self).weixin_accounts.entries@.len() && final(self).weixin_accounts.entries@
                    == old(self).weixin_accounts.entries@.insert(p, (account, config)),
            !weixin_empty(config) ==> forall|k: Seq<char>| k != account@ ==> #[trigger] lookup(final(self).weixin_accounts, k) == lookup(
                old(self).weixin_accounts,
                k,
            ),
    {
        if config.is_empty() {
            self.weixin_accounts.remove(account.as_str());
        } else {
            let ghost a = account;
            self.weixin_accounts.insert(account, config);
            proof {
                crate::config::str_map::law_insert_then_find(old(self).weixin_accounts, self.weixin_accounts, a, config);
                assert forall|k: Seq<char>| k != a@ implies #[trigger] lookup(self.weixin_accounts, k) == lookup(
                    old(self).weixin_accounts,
                    k,
                ) by {
                    crate::config::str_map::law_insert_keeps_others(old(self).weixin_accounts, self.weixin_accounts, a, config, k);
                }
            }
        }
    }
}

} // verus!

verus! {

/// The entries kept when empty settings are dropped.
pub open spec fn wecom_nonempty_flags(e: Seq<(String, WeComConfig)>) -> Seq<bool> {
    Seq::new(e.len(), |i: int| !wecom_empty(e[i].1))
}

pub open spec fn feishu_nonempty_flags(e: Seq<(String, FeishuConfig)>) -> Seq<bool> {
    Seq::new(e.len(), |i: int| !feishu_empty(e[i].1))
}

pub open spec fn weixin_nonempty_flags(e: Seq<(String, WeixinConfig)>) -> Seq<bool> {
    Seq::new(e.len(), |i: int| !weixin_empty(e[i].1))
}

/// The enabled endpoint ids, distinct and ascending.
pub open spec fn enabled_ids_spec(c: ChannelsConfig) -> Seq<Seq<char>> {
    sorted_distinct(
        wecom_ids(c.wecom_accounts.entries@) + feishu_ids(c.feishu_accounts.entries@) + weixin_ids(
            c.weixin_accounts.entries@,
        ),
    )
}

/// The error `endpoint_by_id` reports for `id`, if it reports one.
pub open spec fn endpoint_error(c: ChannelsConfig, id: Seq<char>) -> Option<(MessageId, Seq<char>)> {
    match parse_endpoint_id(id) {
        None => Some((MessageId::UnknownChannelId, id)),
        Some((p, acct)) => if p == 0 && wecom_lookup(c.wecom_accounts, acct) is None {
            Some((MessageId::WecomAccountMissing, acct))
        } else if p == 1 && feishu_lookup(c.feishu_accounts, acct) is None {
            Some((MessageId::FeishuAccountMissing, acct))
        } else if p == 2 && weixin_lookup(c.weixin_accounts, acct) is None {
            Some((MessageId::WeixinAccountMissing, acct))
        } else {
            None
        },
    }
}

/// `e` is the endpoint `endpoint_by_id` builds for `id`.
pub open spec fn endpoint_matches(c: ChannelsConfig, id: Seq<char>, e: ChannelEndpoint) -> bool {
    match parse_endpoint_id(id) {
        None => false,
        Some((p, acct)) => {
            &&& e.id@ == endpoint_id_spec(
                if p == 0 {
                    "wecom"@
                } else if p == 1 {
                    "feishu"@
                } else {
                    "weixin"@
                },
                acct,
            )
            &&& match e.kind {
                ChannelEndpointKind::WeCom { account, config } => p == 0 && account@ == acct
                    && (wecom_lookup(c.wecom_accounts, acct) matches Some(w) && wecom_same(config, w)),
                ChannelEndpointKind::Feishu { account, config } => p == 1 && account@ == acct
                    && (feishu_lookup(c.feishu_accounts, acct) matches Some(f) && feishu_same(config, f)),
                ChannelEndpointKind::Weixin { account, config } => p == 2 && account@ == acct
                    && (weixin_lookup(c.weixin_accounts, acct) matches Some(x) && weixin_same(config, x)),
                ChannelEndpointKind::Http { .. } => false,
            }
        },
    }
}

/// The id an endpoint built for `id` carries.
pub open spec fn canonical_id(id: Seq<char>) -> Seq<char> {
    match parse_endpoint_id(id) {
        Some((p, acct)) => endpoint_id_spec(
            if p == 0 {
                "wecom"@
            } else if p == 1 {
                "feishu"@
            } else {
                "weixin"@
            },
            acct,
        ),
        None => id,
    }
}

/// Index of the first id whose endpoint cannot be built (the length when all can).
pub open spec fn first_bad_id(c: ChannelsConfig, ids: Seq<Seq<char>>, i: int) -> int
    decreases ids.len() - i,
{
    if i < 0 || i >= ids.len() {
        ids.len() as int
    } else if endpoint_error(c, ids[i]) is Some {
        i
    } else {
        first_bad_id(c, ids, i + 1)
    }
}

fn flags_wecom(m: &StrMap<WeComConfig>) -> (r: Vec<bool>)
    ensures
        r@ == wecom_nonempty_flags(m.entries@),
{
    let mut r: Vec<bool> = Vec::new();
    let mut i: usize = 0;
    while i < m.entries.len()
        invariant
            i <= m.entries@.len(),
            r@ == wecom_nonempty_flags(m.entries@).take(i as int),
        decreases m.entries@.len() - i,
    {
        r.push(!m.entries[i].1.is_empty());
        assert(wecom_nonempty_flags(m.entries@).take(i + 1) =~= wecom_nonempty_flags(m.entries@).take(i as int).push(!wecom_empty(m.entries@[i as int].1)));
        i += 1;
    }
    assert(wecom_nonempty_flags(m.entries@).take(i as int) =~= wecom_nonempty_flags(m.entries@));
    r
}

fn flags_feishu(m: &StrMap<FeishuConfig>) -> (r: Vec<bool>)
    ensures
        r@ == feishu_nonempty_flags(m.entries@),
{
    let mut r: Vec<bool> = Vec::new();
    let mut i: usize = 0;
    while i < m.entries.len()
        invariant
            i <= m.entries@.len(),
            r@ == feishu_nonempty_flags(m.entries@).take(i as int),
        decreases m.entries@.len() - i,
    {
        r.push(!m.entries[i].1.is_empty());
        assert(feishu_nonempty_flags(m.entries@).take(i + 1) =~= feishu_nonempty_flags(m.entries@).take(i as int).push(!feishu_empty(m.entries@[i as int].1)));
        i += 1;
    }
    assert(feishu_nonempty_flags(m.entries@).take(i as int) =~= feishu_nonempty_flags(m.entries@));
    r
}

fn flags_weixin(m: &StrMap<WeixinConfig>) -> (r: Vec<bool>)
    ensures
        r@ == weixin_nonempty_flags(m.entries@),
{
    let mut r: Vec<bool> = Vec::new();
    let mut i: usize = 0;
    while i < m.entries.len()
        invariant
            i <= m.entries@.len(),
            r@ == weixin_nonempty_flags(m.entries@).take(i as int),
        decreases m.entries@.len() - i,
    {
        r.push(!m.entries[i].1.is_empty());
        assert(weixin_nonempty_flags(m.entries@).take(i + 1) =~= weixin_nonempty_flags(m.entries@).take(i as int).push(!weixin_empty(m.entries@[i as int].1)));
        i += 1;
    }
    assert(weixin_nonempty_flags(m.entries@).take(i as int) =~= weixin_nonempty_flags(m.entries@));
    r
}

fn push_id(v: &mut Vec<Vec<char>>, id: String)
    ensures
        char_views(final(v)@) == char_views(old(v)@).push(id@),
{
    let c = string_chars(&id);
    proof {
        crate::approval::shell_cmd::lemma_char_views_push(v@, c);
    }
    v.push(c);
}

impl ChannelsConfig {
    /// Drops accounts whose settings are empty.
    pub fn normalize(&mut self)
        requires
            old(self).wf(),
        ensures
            final(self).wf(),
            final(self).wecom_accounts.entries@ == keep_flagged(
                old(self).wecom_accounts.entries@,
                wecom_nonempty_flags(old(self).wecom_accounts.entries@),
            ),
            final(self).feishu_accounts.entries@ == keep_flagged(
                old(self).feishu_accounts.entries@,
                feishu_nonempty_flags(old(self).feishu_accounts.entries@),
            ),
            final(self).weixin_accounts.entries@ == keep_flagged(
                old(self).weixin_accounts.entries@,
                weixin_nonempty_flags(old(self).weixin_accounts.entries@),
            ),
    {
        let f1 = flags_wecom(&self.wecom_accounts);
        self.wecom_accounts.retain_flagged(&f1);
        let f2 = flags_feishu(&self.feishu_accounts);
        self.feishu_accounts.retain_flagged(&f2);
        let f3 = flags_weixin(&self.weixin_accounts);
        self.weixin_accounts.retain_flagged(&f3);
    }

    /// A copy with every secret masked (`***`, or empty when unset).
    pub fn redacted(&self) -> (r: Self)
        ensures
            entry_keys(r.wecom_accounts.entries@) == entry_keys(self.wecom_accounts.entries@),
            entry_keys(r.feishu_accounts.entries@) == entry_keys(self.feishu_accounts.entries@),
            entry_keys(r.weixin_accounts.entries@) == entry_keys(self.weixin_accounts.entries@),
            forall|i: int| 0 <= i < r.wecom_accounts.entries@.len() ==> {
                let (a, b) = (#[trigger] r.wecom_accounts.entries@[i].1, self.wecom_accounts.entries@[i].1);
                a.secret@ == mask_spec(b.secret@) && wecom_same(
                    WeComConfig { secret: b.secret, ..a },
                    b,
                )
            },
            forall|i: int| 0 <= i < r.feishu_accounts.entries@.len() ==> {
                let (a, b) = (#[trigger] r.feishu_accounts.entries@[i].1, self.feishu_accounts.entries@[i].1);
                a.app_secret@ == mask_spec(b.app_secret@) && feishu_same(
                    FeishuConfig { app_secret: b.app_secret, ..a },
                    b,
                )
            },
            forall|i: int| 0 <= i < r.weixin_accounts.entries@.len() ==> {
                let (a, b) = (#[trigger] r.weixin_accounts.entries@[i].1, self.weixin_accounts.entries@[i].1);
                a.bot_token@ == mask_spec(b.bot_token@) && weixin_same(
                    WeixinConfig { bot_token: b.bot_token, ..a },
                    b,
                )
            },
    {
        let mut w: Vec<(String, WeComConfig)> = Vec::new();
        let mut i: usize = 0;
        while i < self.wecom_accounts.entries.len()
            invariant
                i <= self.wecom_accounts.entries@.len(),
                w@.len() == i,
                forall|k: int| 0 <= k < i ==> (#[trigger] w@[k]).0@ == self.wecom_accounts.entries@[k].0@,
                forall|k: int| 0 <= k < i ==> {
                    let (a, b) = (#[trigger] w@[k].1, self.wecom_accounts.entries@[k].1);
                    a.secret@ == mask_spec(b.secret@) && wecom_same(WeComConfig { secret: b.secret, ..a }, b)
                },
            decreases self.wecom_accounts.entries@.len() - i,
        {
            let e = &self.wecom_accounts.entries[i];
            let mut c = copy_wecom(&e.1);
            c.secret = mask_secret(&e.1.secret);
            w.push((clone_str(&e.0), c));
            i += 1;
        }
        let mut f: Vec<(String, FeishuConfig)> = Vec::new();
        let mut i: usize = 0;
        while i < self.feishu_accounts.entries.len()
            invariant
                i <= self.feishu_accounts.entries@.len(),
                f@.len() == i,
                forall|k: int| 0 <= k < i ==> (#[trigger] f@[k]).0@ == self.feishu_accounts.entries@[k].0@,
                forall|k: int| 0 <= k < i ==> {
                    let (a, b) = (#[trigger] f@[k].1, self.feishu_accounts.entries@[k].1);
                    a.app_secret@ == mask_spec(b.app_secret@) && feishu_same(FeishuConfig { app_secret: b.app_secret, ..a }, b)
                },
            decreases self.feishu_accounts.entries@.len() - i,
        {
            let e = &self.feishu_accounts.entries[i];
            let mut c = copy_feishu(&e.1);
            c.app_secret = mask_secret(&e.1.app_secret);
            f.push((clone_str(&e.0), c));
            i += 1;
        }
        let mut x: Vec<(String, WeixinConfig)> = Vec::new();
        let mut i: usize = 0;
        while i < self.weixin_accounts.entries.len()
            invariant
                i <= self.weixin_accounts.entries@.len(),
                x@.len() == i,
                forall|k: int| 0 <= k < i ==> (#[trigger] x@[k]).0@ == self.weixin_accounts.entries@[k].0@,
                forall|k: int| 0 <= k < i ==> {
                    let (a, b) = (#[trigger] x@[k].1, self.weixin_accounts.entries@[k].1);
                    a.bot_token@ == mask_spec(b.bot_token@) && weixin_same(WeixinConfig { bot_token: b.bot_token, ..a }, b)
                },
            decreases self.weixin_accounts.entries@.len() - i,
        {
            let e = &self.weixin_accounts.entries[i];
            let mut c = copy_weixin(&e.1);
            c.bot_token = mask_secret(&e.1.bot_token);
            x.push((clone_str(&e.0), c));
            i += 1;
        }
        let r = ChannelsConfig {
            wecom_accounts: StrMap { entries: w },
            feishu_accounts: StrMap { entries: f },
            weixin_accounts: StrMap { entries: x },
        };
        assert(entry_keys(r.wecom_accounts.entries@) =~= entry_keys(self.wecom_accounts.entries@));
        assert(entry_keys(r.feishu_accounts.entries@) =~= entry_keys(self.feishu_accounts.entries@));
        assert(entry_keys(r.weixin_accounts.entries@) =~= entry_keys(self.weixin_accounts.entries@));
        r
    }

    /// The settings of a WeCom account (missing or empty ones are an error).
    pub fn wecom_account(&self, account: &str) -> (r: Result<&WeComConfig, Error>)
        ensures
            match wecom_lookup(self.wecom_accounts, account@) {
                Some(c) => r matches Ok(x) && *x == c,
                None => r matches Err(e) && is_localized(e, MessageId::WecomAccountMissing, seq![account@]),
            },
    {
        match self.wecom_accounts.get(account) {
            Some(c) => {
                if !c.is_empty() {
                    return Ok(c);
                }
            },
            None => {},
        }
        let e = Error::with_arg(MessageId::WecomAccountMissing, to_string(&chars_of(account)));
        Err(e)
    }

    pub fn require_wecom(&self) -> (r: Result<&WeComConfig, Error>)
        ensures
            match wecom_lookup(self.wecom_accounts, "default"@) {
                Some(c) => r matches Ok(x) && *x == c,
                None => r matches Err(e) && is_localized(e, MessageId::WecomAccountMissing, seq!["default"@]),
            },
    {
        self.wecom_account("default")
    }

    /// The settings of a Feishu account (missing or empty ones are an error).
    pub fn feishu_account(&self, account: &str) -> (r: Result<&FeishuConfig, Error>)
        ensures
            match feishu_lookup(self.feishu_accounts, account@) {
                Some(c) => r matches Ok(x) && *x == c,
                None => r matches Err(e) && is_localized(e, MessageId::FeishuAccountMissing, seq![account@]),
            },
    {
        match self.feishu_accounts.get(account) {
            Some(c) => {
                if !c.is_empty() {
                    return Ok(c);
                }
            },
            None => {},
        }
        Err(Error::with_arg(MessageId::FeishuAccountMissing, to_string(&chars_of(account))))
    }

    pub fn require_feishu(&self) -> (r: Result<&FeishuConfig, Error>)
        ensures
            match feishu_lookup(self.feishu_accounts, "default"@) {
                Some(c) => r matches Ok(x) && *x == c,
                None => r matches Err(e) && is_localized(e, MessageId::FeishuAccountMissing, seq!["default"@]),
            },
    {
        self.feishu_account("default")
    }

    /// The settings of a Weixin account (missing or empty ones are an error).
    pub fn weixin_account(&self, account: &str) -> (r: Result<&WeixinConfig, Error>)
        ensures
            match weixin_lookup(self.weixin_accounts, account@) {
                Some(c) => r matches Ok(x) && *x == c,
                None => r matches Err(e) && is_localized(e, MessageId::WeixinAccountMissing, seq![account@]),
            },
    {
        match self.weixin_accounts.get(account) {
            Some(c) => {
                if !c.is_empty() {
                    return Ok(c);
                }
            },
            None => {},
        }
        Err(Error::with_arg(MessageId::WeixinAccountMissing, to_string(&chars_of(account))))
    }

    pub fn require_weixin(&self) -> (r: Result<&WeixinConfig, Error>)
        ensures
            match weixin_lookup(self.weixin_accounts, "default"@) {
                Some(c) => r matches Ok(x) && *x == c,
                None => r matches Err(e) && is_localized(e, MessageId::WeixinAccountMissing, seq!["default"@]),
            },
    {
        self.weixin_account("default")
    }

    /// The trimmed secret of a WeCom account; an empty one is an error.
    pub fn wecom_secret_for(&self, account: &str) -> (r: Result<String, Error>)
        ensures
            match wecom_lookup(self.wecom_accounts, account@) {
                Some(c) => if trim_spec(c.secret@).len() > 0 {
                    r matches Ok(s) && s@ == trim_spec(c.secret@)
                } else {
                    r matches Err(e) && is_localized(e, MessageId::MissingWecomSecret, seq![])
                },
                None => r matches Err(e) && is_localized(e, MessageId::WecomAccountMissing, seq![account@]),
            },
    {
        let w = self.wecom_account(account)?;
        let s = str_trim(w.secret.as_str());
        if s.unicode_len() == 0 {
            let e = Error::localized(MessageId::MissingWecomSecret);
            return Err(e);
        }
        Ok(to_string(&chars_of(s)))
    }

    pub fn wecom_secret(&self) -> (r: Result<String, Error>)
        ensures
            match wecom_lookup(self.wecom_accounts, "default"@) {
                Some(c) => if trim_spec(c.secret@).len() > 0 {
                    r matches Ok(s) && s@ == trim_spec(c.secret@)
                } else {
                    r matches Err(e) && is_localized(e, MessageId::MissingWecomSecret, seq![])
                },
                None => r matches Err(e) && is_localized(e, MessageId::WecomAccountMissing, seq!["default"@]),
            },
    {
        self.wecom_secret_for("default")
    }
}

} // verus!

verus! {

impl ChannelsConfig {
    fn wecom_endpoint(&self, account: &str) -> (r: Result<ChannelEndpoint, Error>)
        ensures
            match wecom_lookup(self.wecom_accounts, account@) {
                Some(c) => r matches Ok(ep) && ep.id@ == endpoint_id_spec("wecom"@, account@) && (
                ep.kind matches ChannelEndpointKind::WeCom { account: a, config } && a@ == account@
                    && wecom_same(config, c)),
                None => r matches Err(e) && is_localized(e, MessageId::WecomAccountMissing, seq![account@]),
            },
    {
        match self.wecom_account(account) {
            Ok(c) => {
                let cfg = copy_wecom(c);
                Ok(ChannelEndpoint::wecom(to_string(&chars_of(account)), cfg))
            },
            Err(e) => Err(e),
        }
    }

    fn feishu_endpoint(&self, account: &str) -> (r: Result<ChannelEndpoint, Error>)
        ensures
            match feishu_lookup(self.feishu_accounts, account@) {
                Some(c) => r matches Ok(ep) && ep.id@ == endpoint_id_spec("feishu"@, account@) && (
                ep.kind matches ChannelEndpointKind::Feishu { account: a, config } && a@ == account@
                    && feishu_same(config, c)),
                None => r matches Err(e) && is_localized(e, MessageId::FeishuAccountMissing, seq![account@]),
            },
    {
        match self.feishu_account(account) {
            Ok(c) => {
                let cfg = copy_feishu(c);
                Ok(ChannelEndpoint::feishu(to_string(&chars_of(account)), cfg))
            },
            Err(e) => Err(e),
        }
    }

    fn weixin_endpoint(&self, account: &str) -> (r: Result<ChannelEndpoint, Error>)
        ensures
            match weixin_lookup(self.weixin_accounts, account@) {
                Some(c) => r matches Ok(ep) && ep.id@ == endpoint_id_spec("weixin"@, account@) && (
                ep.kind matches ChannelEndpointKind::Weixin { account: a, config } && a@ == account@
                    && weixin_same(config, c)),
                None => r matches Err(e) && is_localized(e, MessageId::WeixinAccountMissing, seq![account@]),
            },
    {
        match self.weixin_account(account) {
            Ok(c) => {
                let cfg = copy_weixin(c);
                Ok(ChannelEndpoint::weixin(to_string(&chars_of(account)), cfg))
            },
            Err(e) => Err(e),
        }
    }

    /// The endpoint an id names.
    pub fn endpoint_by_id(&self, id: &str) -> (r: Result<ChannelEndpoint, Error>)
        ensures
            match endpoint_error(*self, id@) {
                Some((mid, arg)) => r matches Err(e) && is_localized(e, mid, seq![arg]),
                None => r matches Ok(ep) && endpoint_matches(*self, id@, ep),
            },
    {
        proof {
            reveal_strlit("default");
            reveal_strlit("wecom:");
            reveal_strlit("feishu:");
            reveal_strlit("weixin:");
        }
        let v = chars_of(id);
        if str_eq(id, "wecom") {
            return self.wecom_endpoint("default");
        }
        if starts_with_str(&v, "wecom:") {
            let a = to_string(&slice_chars(&v, 6, v.len()));
            assert(a@ =~= id@.skip(6));
            return self.wecom_endpoint(a.as_str());
        }
        if str_eq(id, "feishu") {
            return self.feishu_endpoint("default");
        }
        if starts_with_str(&v, "feishu:") {
            let a = to_string(&slice_chars(&v, 7, v.len()));
            assert(a@ =~= id@.skip(7));
            return self.feishu_endpoint(a.as_str());
        }
        if str_eq(id, "weixin") {
            return self.weixin_endpoint("default");
        }
        if starts_with_str(&v, "weixin:") {
            let a = to_string(&slice_chars(&v, 7, v.len()));
            assert(a@ =~= id@.skip(7));
            return self.weixin_endpoint(a.as_str());
        }
        Err(Error::with_arg(MessageId::UnknownChannelId, to_string(&v)))
    }

    /// Ids of the enabled accounts, distinct and ascending.
    pub fn enabled_endpoint_ids(&self) -> (r: Vec<Vec<char>>)
        ensures
            char_views(r@) == enabled_ids_spec(*self),
    {
        let mut raw: Vec<Vec<char>> = Vec::new();
        assert(char_views(raw@) =~= Seq::<Seq<char>>::empty());
        let mut i: usize = 0;
        let ghost we = self.wecom_accounts.entries@;
        assert(we.take(0) =~= Seq::<(String, WeComConfig)>::empty());
        while i < self.wecom_accounts.entries.len()
            invariant
                i <= we.len(),
                we == self.wecom_accounts.entries@,
                char_views(raw@) == wecom_ids(we.take(i as int)),
            decreases we.len() - i,
        {
            let e = &self.wecom_accounts.entries[i];
            assert(we.take(i + 1).drop_last() =~= we.take(i as int));
            if !e.1.is_empty() && e.1.enabled {
                push_id(&mut raw, endpoint_id_for_account("wecom", e.0.as_str()));
            }
            i += 1;
        }
        assert(we.take(we.len() as int) =~= we);
        let ghost head = char_views(raw@);
        let mut i: usize = 0;
        let ghost fe = self.feishu_accounts.entries@;
        assert(fe.take(0) =~= Seq::<(String, FeishuConfig)>::empty());
        assert(head + feishu_ids(fe.take(0)) =~= head);
        while i < self.feishu_accounts.entries.len()
            invariant
                i <= fe.len(),
                fe == self.feishu_accounts.entries@,
                char_views(raw@) == head + feishu_ids(fe.take(i as int)),
            decreases fe.len() - i,
        {
            let e = &self.feishu_accounts.entries[i];
            assert(fe.take(i + 1).drop_last() =~= fe.take(i as int));
            if !e.1.is_empty() && e.1.enabled {
                push_id(&mut raw, endpoint_id_for_account("feishu", e.0.as_str()));
            }
            i += 1;
        }
        assert(fe.take(fe.len() as int) =~= fe);
        let ghost head2 = char_views(raw@);
        let mut i: usize = 0;
        let ghost xe = self.weixin_accounts.entries@;
        assert(xe.take(0) =~= Seq::<(String, WeixinConfig)>::empty());
        assert(head2 + weixin_ids(xe.take(0)) =~= head2);
        while i < self.weixin_accounts.entries.len()
            invariant
                i <= xe.len(),
                xe == self.weixin_accounts.entries@,
                char_views(raw@) == head2 + weixin_ids(xe.take(i as int)),
            decreases xe.len() - i,
        {
            let e = &self.weixin_accounts.entries[i];
            assert(xe.take(i + 1).drop_last() =~= xe.take(i as int));
            if !e.1.is_empty() && e.1.enabled {
                push_id(&mut raw, endpoint_id_for_account("weixin", e.0.as_str()));
            }
            i += 1;
        }
        assert(xe.take(xe.len() as int) =~= xe);
        sorted_distinct_chars(&raw)
    }

    /// The endpoints of all enabled accounts, in id order.
    pub fn enabled_endpoints(&self) -> (r: Result<Vec<ChannelEndpoint>, Error>)
        ensures
            ({
                let ids = enabled_ids_spec(*self);
                let k = first_bad_id(*self, ids, 0);
                if ids.len() == 0 {
                    r matches Err(e) && is_localized(e, MessageId::ChannelsNotConfigured, seq![])
                } else if k < ids.len() {
                    r matches Err(e) && (endpoint_error(*self, ids[k]) matches Some((mid, arg))
                        && is_localized(e, mid, seq![arg]))
                } else {
                    r matches Ok(v) && v@.len() == ids.len() && forall|i: int|
                        0 <= i < ids.len() ==> endpoint_matches(*self, ids[i], #[trigger] v@[i])
                }
            }),
    {
        let ids = self.enabled_endpoint_ids();
        let ghost iv = enabled_ids_spec(*self);
        if ids.len() == 0 {
            return Err(Error::localized(MessageId::ChannelsNotConfigured));
        }
        let mut out: Vec<ChannelEndpoint> = Vec::new();
        let mut i: usize = 0;
        while i < ids.len()
            invariant
                i <= ids@.len(),
                char_views(ids@) == iv,
                iv == enabled_ids_spec(*self),
                out@.len() == i,
                first_bad_id(*self, iv, i as int) == first_bad_id(*self, iv, 0),
                forall|j: int| 0 <= j < i ==> endpoint_matches(*self, iv[j], #[trigger] out@[j]),
            decreases ids@.len() - i,
        {
            let id = to_string(&ids[i]);
            assert(iv[i as int] == ids@[i as int]@);
            match self.endpoint_by_id(id.as_str()) {
                Ok(ep) => {
                    out.push(ep);
                },
                Err(e) => {
                    return Err(e);
                },
            }
            i += 1;
        }
        Ok(out)
    }

    /// The id of the first enabled endpoint.
    pub fn active_channel(&self) -> (r: Result<String, Error>)
        ensures
            ({
                let ids = enabled_ids_spec(*self);
                let k = first_bad_id(*self, ids, 0);
                if ids.len() == 0 {
                    r matches Err(e) && is_localized(e, MessageId::ChannelsNotConfigured, seq![])
                } else if k < ids.len() {
                    r matches Err(e) && (endpoint_error(*self, ids[k]) matches Some((mid, arg))
                        && is_localized(e, mid, seq![arg]))
                } else {
                    r matches Ok(s) && s@ == canonical_id(ids[0])
                }
            }),
    {
        match self.enabled_endpoints() {
            Ok(v) => {
                if v.len() == 0 {
                    return Err(Error::localized(MessageId::ChannelsNotConfigured));
                }
                let ep = &v[0];
                let s = clone_str(&ep.id);
                proof {
                    let ids = enabled_ids_spec(*self);
                    assert(endpoint_matches(*self, ids[0], v@[0]));
                }
                Ok(s)
            },
            Err(e) => Err(e),
        }
    }
}

// ---------------------------------------------------------------- legacy selection

/// The account an endpoint id names on `platform`: the bare platform is
/// `default`, `platform:name` is `name`.
pub open spec fn account_name_spec(platform: Seq<char>, id: Seq<char>) -> Option<Seq<char>> {
    if id == platform {
        Some("default"@)
    } else if starts_with_spec(id, platform + ":"@) {
        Some(id.skip(platform.len() + 1int))
    } else {
        None
    }
}

pub fn account_name_for_platform_endpoint_id(platform: &str, id: &str) -> (r: Option<String>)
    ensures
        opt_str_view(r) == account_name_spec(platform@, id@),
{
    if str_eq(id, platform) {
        return Some(String::from_str("default"));
    }
    let mut prefix = chars_of(platform);
    prefix.push(':');
    let v = chars_of(id);
    proof {
        reveal_strlit(":");
        assert(prefix@ =~= platform@ + ":"@);
    }
    if crate::text::starts_with(&v, &prefix) {
        let a = to_string(&slice_chars(&v, prefix.len(), v.len()));
        assert(a@ =~= id@.skip(platform@.len() + 1int));
        Some(a)
    } else {
        None
    }
}

/// Whether the WeCom account `name` is enabled after the legacy top-level
/// selection: with an `enabled` list, exactly the accounts it names; else with
/// a non-empty `default`, exactly the account it names; else as it was.
pub open spec fn legacy_enabled_spec(
    name: Seq<char>,
    enabled_list: Option<Seq<Seq<char>>>,
    legacy_default: Option<Seq<char>>,
    current: bool,
) -> bool {
    match enabled_list {
        Some(list) => exists|i: int| 0 <= i < list.len() && #[trigger] account_name_spec("wecom"@, list[i]) == Some(name),
        None => match legacy_default {
            Some(d) => if d.len() > 0 {
                account_name_spec("wecom"@, d) == Some(name)
            } else {
                current
            },
            None => current,
        },
    }
}

pub open spec fn opt_views(o: Option<Vec<String>>) -> Option<Seq<Seq<char>>> {
    match o {
        Some(l) => Some(views(l@)),
        None => None,
    }
}

pub open spec fn wecom_same_but_enabled(a: WeComConfig, b: WeComConfig) -> bool {
    a.bot_id@ == b.bot_id@ && a.secret@ == b.secret@ && opt_str_view(a.websocket_url)
        == opt_str_view(b.websocket_url) && a.dm_policy@ == b.dm_policy@ && views(a.allow_from@)
        == views(b.allow_from@) && opt_str_view(a.welcome_message) == opt_str_view(b.welcome_message)
}

fn legacy_flag(name: &String, enabled_list: &Option<Vec<String>>, legacy_default: &Option<String>, current: bool) -> (r: bool)
    ensures
        r == legacy_enabled_spec(
            name@,
            opt_views(*enabled_list),
            opt_str_view(*legacy_default),
            current,
        ),
{
    match enabled_list {
        Some(list) => {
            let mut i: usize = 0;
            while i < list.len()
                invariant
                    i <= list.len(),
                    opt_views(*enabled_list) == Some(views(list@)),
                    forall|j: int| 0 <= j < i ==> account_name_spec("wecom"@, #[trigger] views(list@)[j]) != Some(name@),
                decreases list.len() - i,
            {
                let n = account_name_for_platform_endpoint_id("wecom", list[i].as_str());
                assert(views(list@)[i as int] == list@[i as int]@);
                match n {
                    Some(a) => if str_eq(a.as_str(), name.as_str()) {
                        assert(account_name_spec("wecom"@, views(list@)[i as int]) == Some(name@));
                        assert(views(list@).len() == list@.len());
                        assert(opt_views(*enabled_list) == Some(views(list@)));
                        return true;
                    },
                    None => {},
                }
                i += 1;
            }
            false
        },
        None => match legacy_default {
            Some(d) => if string_chars(d).len() > 0 {
                match account_name_for_platform_endpoint_id("wecom", d.as_str()) {
                    Some(a) => str_eq(a.as_str(), name.as_str()),
                    None => false,
                }
            } else {
                current
            },
            None => current,
        },
    }
}

/// Applies the legacy top-level `enabled` list (the strings of that array) or
/// `default` channel id to the WeCom accounts.
pub fn apply_legacy_channel_selection(
    accounts: &mut StrMap<WeComConfig>,
    enabled_list: Option<Vec<String>>,
    legacy_default: Option<String>,
)
    requires
        old(accounts).wf(),
    ensures
        final(accounts).wf(),
        final(accounts).entries@.len() == old(accounts).entries@.len(),
        forall|i: int| 0 <= i < old(accounts).entries@.len() ==> {
            &&& (#[trigger] final(accounts).entries@[i]).0@ == old(accounts).entries@[i].0@
            &&& wecom_same_but_enabled(final(accounts).entries@[i].1, old(accounts).entries@[i].1)
            &&& final(accounts).entries@[i].1.enabled == legacy_enabled_spec(
                old(accounts).entries@[i].0@,
                opt_views(enabled_list),
                opt_str_view(legacy_default),
                old(accounts).entries@[i].1.enabled,
            )
        },
{
    let mut out: Vec<(String, WeComConfig)> = Vec::new();
    let mut i: usize = 0;
    while i < accounts.entries.len()
        invariant
            i <= accounts.entries.len(),
            accounts == old(accounts),
            out@.len() == i,
            forall|j: int| 0 <= j < i ==> {
                &&& (#[trigger] out@[j]).0@ == accounts.entries@[j].0@
                &&& wecom_same_but_enabled(out@[j].1, accounts.entries@[j].1)
                &&& out@[j].1.enabled == legacy_enabled_spec(
                    accounts.entries@[j].0@,
                    opt_views(enabled_list),
                    opt_str_view(legacy_default),
                    accounts.entries@[j].1.enabled,
                )
            },
        decreases accounts.entries.len() - i,
    {
        let name = &accounts.entries[i].0;
        let mut cfg = copy_wecom(&accounts.entries[i].1);
        cfg.enabled = legacy_flag(name, &enabled_list, &legacy_default, accounts.entries[i].1.enabled);
        out.push((clone_str(name), cfg));
        i += 1;
    }
    proof {
        assert(entry_keys(out@) =~= entry_keys(accounts.entries@));
    }
    accounts.entries = out;
}

/// Reading back the account from the endpoint id formed for it gives the
/// account again (ids are `platform` for `default`, else `platform:account`).
pub proof fn law_endpoint_id_round_trip(platform: Seq<char>, account: Seq<char>)
    ensures
        account_name_spec(platform, endpoint_id_spec(platform, account)) == Some(account),
{
    reveal_strlit(":");
    if account != "default"@ {
        let id = platform + ":"@ + account;
        assert(id.len() > platform.len());
        assert(id != platform);
        assert(id.subrange(0, platform.len() + 1int) =~= platform + ":"@);
        assert(id.skip(platform.len() + 1int) =~= account);
    }
}

} // verus!

verus! {

// ---------------------------------------------------------------- loading

/// The setting names of a platform's account. Under `[channels.<platform>]`
/// these are the settings of the `default` account even when they hold a table.
pub open spec fn is_setting_key(platform: Seq<char>, key: Seq<char>) -> bool {
    if platform == "wecom"@ {
        key == "enabled"@ || key == "bot_id"@ || key == "secret"@ || key == "websocket_url"@
            || key == "dm_policy"@ || key == "allow_from"@ || key == "welcome_message"@
    } else if platform == "feishu"@ {
        key == "enabled"@ || key == "app_id"@ || key == "app_secret"@ || key == "domain"@
            || key == "dm_policy"@ || key == "allow_from"@ || key == "mention_enabled"@
            || key == "welcome_message"@
    } else if platform == "weixin"@ {
        key == "enabled"@ || key == "bot_token"@ || key == "ilink_bot_id"@ || key == "ilink_user_id"@
            || key == "base_url"@ || key == "welcome_message"@ || key == "bot_type"@
            || key == "poll_timeout_secs"@
    } else {
        false
    }
}

/// Whether a key under `[channels.<platform>]` names an account of its own:
/// it holds a table and is not one of the platform's setting names. The
/// other keys are the settings of the `default` account.
pub fn is_account_table_key(platform: &str, key: &str, is_table: bool) -> (r: bool)
    ensures
        r == (is_table && !is_setting_key(platform@, key@)),
{
    if !is_table {
        return false;
    }
    let setting = if str_eq(platform, "wecom") {
        str_eq(key, "enabled") || str_eq(key, "bot_id") || str_eq(key, "secret")
            || str_eq(key, "websocket_url") || str_eq(key, "dm_policy")
            || str_eq(key, "allow_from") || str_eq(key, "welcome_message")
    } else if str_eq(platform, "feishu") {
        str_eq(key, "enabled") || str_eq(key, "app_id") || str_eq(key, "app_secret")
            || str_eq(key, "domain") || str_eq(key, "dm_policy") || str_eq(key, "allow_from")
            || str_eq(key, "mention_enabled") || str_eq(key, "welcome_message")
    } else if str_eq(platform, "weixin") {
        str_eq(key, "enabled") || str_eq(key, "bot_token") || str_eq(key, "ilink_bot_id")
            || str_eq(key, "ilink_user_id") || str_eq(key, "base_url")
            || str_eq(key, "welcome_message") || str_eq(key, "bot_type")
            || str_eq(key, "poll_timeout_secs")
    } else {
        false
    };
    !setting
}

/// No account of the list has settings.
pub open spec fn all_wecom_empty(e: Seq<(String, WeComConfig)>) -> bool {
    forall|i: int| 0 <= i < e.len() ==> wecom_empty(#[trigger] e[i].1)
}

/// Whether `[channels.wecom]` leaves no account, so that the legacy top-level
/// `[wecom]` table is read in its place.
pub fn needs_legacy_wecom(wecom: &StrMap<WeComConfig>) -> (r: bool)
    ensures
        r == all_wecom_empty(wecom.entries@),
{
    let mut i: usize = 0;
    while i < wecom.entries.len()
        invariant
            i <= wecom.entries@.len(),
            forall|j: int| 0 <= j < i ==> wecom_empty(#[trigger] wecom.entries@[j].1),
        decreases wecom.entries@.len() - i,
    {
        if !wecom.entries[i].1.is_empty() {
            return false;
        }
        i += 1;
    }
    true
}

pub open spec fn kept_wecom(m: StrMap<WeComConfig>) -> Seq<(String, WeComConfig)> {
    keep_flagged(m.entries@, wecom_nonempty_flags(m.entries@))
}

pub open spec fn kept_feishu(m: StrMap<FeishuConfig>) -> Seq<(String, FeishuConfig)> {
    keep_flagged(m.entries@, feishu_nonempty_flags(m.entries@))
}

pub open spec fn kept_weixin(m: StrMap<WeixinConfig>) -> Seq<(String, WeixinConfig)> {
    keep_flagged(m.entries@, weixin_nonempty_flags(m.entries@))
}

/// The WeCom accounts that loading starts from: those of `[channels.wecom]`
/// with settings, or, when there are none, those of the legacy `[wecom]`.
pub open spec fn loaded_wecom_base(
    wecom: StrMap<WeComConfig>,
    legacy_wecom: Option<StrMap<WeComConfig>>,
) -> Seq<(String, WeComConfig)> {
    if all_wecom_empty(wecom.entries@) {
        match legacy_wecom {
            Some(m) => kept_wecom(m),
            None => seq![],
        }
    } else {
        kept_wecom(wecom)
    }
}

proof fn lemma_kept_wecom_nonempty(m: StrMap<WeComConfig>, i: int)
    requires
        0 <= i < kept_wecom(m).len(),
    ensures
        !wecom_empty(kept_wecom(m)[i].1),
{
    crate::config::str_map::lemma_keep_flagged_index(m.entries@, wecom_nonempty_flags(m.entries@), i);
}

proof fn lemma_kept_feishu_nonempty(m: StrMap<FeishuConfig>, i: int)
    requires
        0 <= i < kept_feishu(m).len(),
    ensures
        !feishu_empty(kept_feishu(m)[i].1),
{
    crate::config::str_map::lemma_keep_flagged_index(m.entries@, feishu_nonempty_flags(m.entries@), i);
}

proof fn lemma_kept_weixin_nonempty(m: StrMap<WeixinConfig>, i: int)
    requires
        0 <= i < kept_weixin(m).len(),
    ensures
        !weixin_empty(kept_weixin(m)[i].1),
{
    crate::config::str_map::lemma_keep_flagged_index(m.entries@, weixin_nonempty_flags(m.entries@), i);
}

impl ChannelsConfig {
    /// The channels read from the accounts of `[channels.wecom]`,
    /// `[channels.feishu]` and `[channels.weixin]`: accounts without settings
    /// are dropped; WeCom falls back to the legacy top-level `[wecom]` when
    /// `[channels.wecom]` leaves none; then the legacy top-level `enabled`
    /// list or `default` id picks the enabled WeCom accounts. No account of
    /// the result is empty.
    pub fn from_accounts(
        wecom: StrMap<WeComConfig>,
        feishu: StrMap<FeishuConfig>,
        weixin: StrMap<WeixinConfig>,
        legacy_wecom: Option<StrMap<WeComConfig>>,
        enabled_list: Option<Vec<String>>,
        legacy_default: Option<String>,
    ) -> (r: Self)
        requires
            wecom.wf(),
            feishu.wf(),
            weixin.wf(),
            legacy_wecom matches Some(m) ==> m.wf(),
        ensures
            r.wf(),
            r.feishu_accounts.entries@ == kept_feishu(feishu),
            r.weixin_accounts.entries@ == kept_weixin(weixin),
            r.wecom_accounts.entries@.len() == loaded_wecom_base(wecom, legacy_wecom).len(),
            forall|i: int| 0 <= i < r.wecom_accounts.entries@.len() ==> {
                let b = loaded_wecom_base(wecom, legacy_wecom)[i];
                &&& (#[trigger] r.wecom_accounts.entries@[i]).0@ == b.0@
                &&& wecom_same_but_enabled(r.wecom_accounts.entries@[i].1, b.1)
                &&& r.wecom_accounts.entries@[i].1.enabled == legacy_enabled_spec(
                    b.0@,
                    opt_views(enabled_list),
                    opt_str_view(legacy_default),
                    b.1.enabled,
                )
            },
            forall|i: int| 0 <= i < r.wecom_accounts.entries@.len() ==> !wecom_empty(#[trigger] r.wecom_accounts.entries@[i].1),
            forall|i: int| 0 <= i < r.feishu_accounts.entries@.len() ==> !feishu_empty(#[trigger] r.feishu_accounts.entries@[i].1),
            forall|i: int| 0 <= i < r.weixin_accounts.entries@.len() ==> !weixin_empty(#[trigger] r.weixin_accounts.entries@[i].1),
    {
        let ghost w0 = wecom;
        let use_legacy = needs_legacy_wecom(&wecom);
        let mut base = if use_legacy {
            match legacy_wecom {
                Some(mut m) => {
                    let f = flags_wecom(&m);
                    m.retain_flagged(&f);
                    m
                },
                None => StrMap::new(),
            }
        } else {
            let mut m = wecom;
            let f = flags_wecom(&m);
            m.retain_flagged(&f);
            m
        };
        assert(base.entries@ == loaded_wecom_base(w0, legacy_wecom));
        let ghost b = base.entries@;
        apply_legacy_channel_selection(&mut base, enabled_list, legacy_default);
        let ghost f0 = feishu;
        let ghost x0 = weixin;
        let mut feishu = feishu;
        let f2 = flags_feishu(&feishu);
        feishu.retain_flagged(&f2);
        let mut weixin = weixin;
        let f3 = flags_weixin(&weixin);
        weixin.retain_flagged(&f3);
        proof {
            assert forall|i: int| 0 <= i < base.entries@.len() implies !wecom_empty(#[trigger] base.entries@[i].1) by {
                if all_wecom_empty(w0.entries@) {
                    match legacy_wecom {
                        Some(m) => lemma_kept_wecom_nonempty(m, i),
                        None => {},
                    }
                } else {
                    lemma_kept_wecom_nonempty(w0, i);
                }
                assert(wecom_same_but_enabled(base.entries@[i].1, b[i].1));
            }
            assert forall|i: int| 0 <= i < feishu.entries@.len() implies !feishu_empty(#[trigger] feishu.entries@[i].1) by {
                lemma_kept_feishu_nonempty(f0, i);
            }
            assert forall|i: int| 0 <= i < weixin.entries@.len() implies !weixin_empty(#[trigger] weixin.entries@[i].1) by {
                lemma_kept_weixin_nonempty(x0, i);
            }
        }
        ChannelsConfig { wecom_accounts: base, feishu_accounts: feishu, weixin_accounts: weixin }
    }
}

impl ChannelsConfig {
    /// The channels as saving writes them: accounts without settings dropped;
    /// `None` when no account is left, and then `[channels]` is removed.
    pub fn for_saving(self) -> (r: Option<Self>)
        requires
            self.wf(),
        ensures
            match r {
                None => kept_wecom(self.wecom_accounts).len() == 0
                    && kept_feishu(self.feishu_accounts).len() == 0
                    && kept_weixin(self.weixin_accounts).len() == 0,
                Some(c) => c.wf()
                    && c.wecom_accounts.entries@ == kept_wecom(self.wecom_accounts)
                    && c.feishu_accounts.entries@ == kept_feishu(self.feishu_accounts)
                    && c.weixin_accounts.entries@ == kept_weixin(self.weixin_accounts)
                    && !(c.wecom_accounts.entries@.len() == 0
                        && c.feishu_accounts.entries@.len() == 0
                        && c.weixin_accounts.entries@.len() == 0),
            },
    {
        let mut c = self;
        c.normalize();
        if c.wecom_accounts.entries.len() == 0 && c.feishu_accounts.entries.len() == 0
            && c.weixin_accounts.entries.len() == 0
        {
            None
        } else {
            Some(c)
        }
    }

    /// The file the channels are kept in: `hi.toml`.
    pub fn channels_path(hi_toml: Option<&str>, hi_config: Option<&str>, home: &str) -> (r: String)
        ensures
            r@ == crate::config::paths::hi_config_path_spec(hi_toml, hi_config, home@),
    {
        crate::config::paths::hi_config_path(hi_toml, hi_config, home)
    }
}

/// Dropping the accounts without settings changes nothing when every account
/// has settings, as every account of loaded channels has: saving channels as
/// they were loaded writes them back unchanged.
pub proof fn law_normalize_keeps_loaded(c: ChannelsConfig)
    requires
        forall|i: int| 0 <= i < c.wecom_accounts.entries@.len() ==> !wecom_empty(#[trigger] c.wecom_accounts.entries@[i].1),
        forall|i: int| 0 <= i < c.feishu_accounts.entries@.len() ==> !feishu_empty(#[trigger] c.feishu_accounts.entries@[i].1),
        forall|i: int| 0 <= i < c.weixin_accounts.entries@.len() ==> !weixin_empty(#[trigger] c.weixin_accounts.entries@[i].1),
    ensures
        kept_wecom(c.wecom_accounts) == c.wecom_accounts.entries@,
        kept_feishu(c.feishu_accounts) == c.feishu_accounts.entries@,
        kept_weixin(c.weixin_accounts) == c.weixin_accounts.entries@,
{
    let w = c.wecom_accounts.entries@;
    let f = c.feishu_accounts.entries@;
    let x = c.weixin_accounts.entries@;
    assert forall|i: int| 0 <= i < w.len() implies #[trigger] wecom_nonempty_flags(w)[i] by {
        assert(!wecom_empty(w[i].1));
    }
    assert forall|i: int| 0 <= i < f.len() implies #[trigger] feishu_nonempty_flags(f)[i] by {
        assert(!feishu_empty(f[i].1));
    }
    assert forall|i: int| 0 <= i < x.len() implies #[trigger] weixin_nonempty_flags(x)[i] by {
        assert(!weixin_empty(x[i].1));
    }
    crate::config::str_map::lemma_keep_all(w, wecom_nonempty_flags(w));
    crate::config::str_map::lemma_keep_all(f, feishu_nonempty_flags(f));
    crate::config::str_map::lemma_keep_all(x, weixin_nonempty_flags(x));
}

} // verus!
