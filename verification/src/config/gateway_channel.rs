//! The message channels that `hi gateway` knows, and which of them can run.
use vstd::prelude::*;
use crate::text::str_eq;

verus! {

/// A known message channel: its id, its label and hint for setup, and
/// whether this release can run it.
#[derive(Debug, Clone, Copy, PartialEq, Eq)]
pub struct GatewayChannelKind {
    pub id: &'static str,
    pub label: &'static str,
    pub hint: &'static str,
    pub available: bool,
}

/// Ids of the known channels, in setup order.
pub open spec fn gateway_channel_ids() -> Seq<Seq<char>> {
    seq!["wecom"@, "feishu"@, "weixin"@, "dingtalk"@, "telegram"@, "slack"@]
}

/// Whether the channel at position `i` can run.
pub open spec fn gateway_channel_available(i: int) -> bool {
    0 <= i < 3
}

/// All message channels, implemented and planned, in setup order.
pub fn gateway_channels() -> (r: Vec<GatewayChannelKind>)
    ensures
        r@.len() == 6,
        forall|i: int| 0 <= i < 6 ==> (#[trigger] r@[i]).id@ == gateway_channel_ids()[i]
            && r@[i].available == gateway_channel_available(i),
{
    let r = vec![
        GatewayChannelKind {
            id: "wecom",
            label: "企业微信智能机器人",
            hint: "WebSocket 长连接 · 已接入",
            available: true,
        },
        GatewayChannelKind {
            id: "feishu",
            label: "飞书机器人",
            hint: "长连接 WebSocket · 已接入",
            available: true,
        },
        GatewayChannelKind {
            id: "weixin",
            label: "个人微信（iLink）",
            hint: "iLink 长轮询 · 实验性 · 需手机插件灰度",
            available: true,
        },
        GatewayChannelKind { id: "dingtalk", label: "钉钉机器人", hint: "规划中", available: false },
        GatewayChannelKind { id: "telegram", label: "Telegram Bot", hint: "规划中", available: false },
        GatewayChannelKind { id: "slack", label: "Slack Bot", hint: "规划中", available: false },
    ];
    r
}

/// Position of the first known channel with id `id`, or -1.
pub open spec fn gateway_channel_index(id: Seq<char>) -> int {
    if id == gateway_channel_ids()[0] {
        0
    } else if id == gateway_channel_ids()[1] {
        1
    } else if id == gateway_channel_ids()[2] {
        2
    } else if id == gateway_channel_ids()[3] {
        3
    } else if id == gateway_channel_ids()[4] {
        4
    } else if id == gateway_channel_ids()[5] {
        5
    } else {
        -1
    }
}

/// The known channel with this id.
pub fn gateway_channel(id: &str) -> (r: Option<GatewayChannelKind>)
    ensures
        match r {
            Some(c) => gateway_channel_index(id@) >= 0 && c.id@ == id@
                && c.available == gateway_channel_available(gateway_channel_index(id@)),
            None => gateway_channel_index(id@) == -1,
        },
{
    let all = gateway_channels();
    let mut i: usize = 0;
    while i < all.len()
        invariant
            i <= all.len(),
            all@.len() == 6,
            forall|j: int| 0 <= j < 6 ==> (#[trigger] all@[j]).id@ == gateway_channel_ids()[j]
                && all@[j].available == gateway_channel_available(j),
            forall|j: int| 0 <= j < i ==> gateway_channel_ids()[j] != id@,
        decreases all.len() - i,
    {
        if str_eq(all[i].id, id) {
            return Some(all[i]);
        }
        i += 1;
    }
    None
}

pub fn default_gateway_channel_id() -> (r: &'static str)
    ensures
        r@ == "wecom"@,
{
    "wecom"
}

/// The channel setup offers first: `existing` when it names a channel that can
/// run, else the default.
pub fn gateway_channel_default(existing: Option<&str>) -> (r: &'static str)
    ensures
        r@ == match existing {
            Some(id) => if gateway_channel_index(id@) >= 0
                && gateway_channel_available(gateway_channel_index(id@)) {
                id@
            } else {
                "wecom"@
            },
            None => "wecom"@,
        },
{
    match existing {
        Some(id) => match gateway_channel(id) {
            Some(c) => if c.available {
                c.id
            } else {
                default_gateway_channel_id()
            },
            None => default_gateway_channel_id(),
        },
        None => default_gateway_channel_id(),
    }
}

/// The channels that can be configured and started in this release, in setup order.
pub fn available_gateway_channels() -> (r: Vec<GatewayChannelKind>)
    ensures
        r@.len() == 3,
        forall|i: int| 0 <= i < 3 ==> (#[trigger] r@[i]).id@ == gateway_channel_ids()[i]
            && r@[i].available,
{
    let all = gateway_channels();
    let mut r: Vec<GatewayChannelKind> = Vec::new();
    let mut i: usize = 0;
    while i < all.len()
        invariant
            i <= all.len(),
            all@.len() == 6,
            forall|j: int| 0 <= j < 6 ==> (#[trigger] all@[j]).id@ == gateway_channel_ids()[j]
                && all@[j].available == gateway_channel_available(j),
            r@.len() == if i <= 3 { i as int } else { 3 },
            forall|j: int| 0 <= j < r@.len() ==> (#[trigger] r@[j]).id@ == gateway_channel_ids()[j]
                && r@[j].available,
        decreases all.len() - i,
    {
        if all[i].available {
            r.push(all[i]);
        }
        i += 1;
    }
    r
}

} // verus!
