//! Channels a conversation arrives on, and the session keys they use.
use vstd::prelude::*;
use crate::session::SessionId;
use crate::text::{chars_of, push_str, str_eq, to_string};

verus! {

#[derive(Debug, Clone, Copy, PartialEq, Eq, Structural)]
pub enum Channel {
    Tui,
    Chat,
    Wecom,
    Feishu,
    Weixin,
}

pub open spec fn channel_name(c: Channel) -> Seq<char> {
    match c {
        Channel::Tui => "tui"@,
        Channel::Chat => "chat"@,
        Channel::Wecom => "wecom"@,
        Channel::Feishu => "feishu"@,
        Channel::Weixin => "weixin"@,
    }
}

/// An account name that means the default account.
pub open spec fn is_default_account(account: Seq<char>) -> bool {
    account.len() == 0 || account == "default"@
}

/// `platform:user`, or `platform:account:user` for a named account.
pub open spec fn account_user_key(platform: Seq<char>, account: Seq<char>, user: Seq<char>) -> Seq<char> {
    if is_default_account(account) {
        platform + ":"@ + user
    } else {
        platform + ":"@ + account + ":"@ + user
    }
}

fn joined(parts: &[&str]) -> (r: SessionId)
    ensures
        r.0@ == concat_strs(parts@),
{
    let mut out: Vec<char> = Vec::new();
    let mut i: usize = 0;
    while i < parts.len()
        invariant
            i <= parts@.len(),
            out@ == concat_strs(parts@.take(i as int)),
        decreases parts@.len() - i,
    {
        push_str(&mut out, parts[i]);
        assert(parts@.take(i + 1).drop_last() =~= parts@.take(i as int));
        i += 1;
    }
    assert(parts@.take(parts@.len() as int) =~= parts@);
    SessionId(to_string(&out))
}

pub open spec fn concat_strs(parts: Seq<&str>) -> Seq<char>
    decreases parts.len(),
{
    if parts.len() == 0 {
        seq![]
    } else {
        concat_strs(parts.drop_last()) + parts.last()@
    }
}

impl Channel {
    pub fn as_str(self) -> (r: &'static str)
        ensures
            r@ == channel_name(self),
    {
        match self {
            Channel::Tui => "tui",
            Channel::Chat => "chat",
            Channel::Wecom => "wecom",
            Channel::Feishu => "feishu",
            Channel::Weixin => "weixin",
        }
    }

    /// `<channel>:main`.
    pub fn default_session_id(self) -> (r: SessionId)
        ensures
            r.0@ == channel_name(self) + ":main"@,
    {
        let r = joined(&[self.as_str(), ":main"]);
        proof {
            reveal_with_fuel(concat_strs, 3);
        }
        r
    }

    pub fn wecom_user(user_id: &str) -> (r: SessionId)
        ensures
            r.0@ == "wecom:"@ + user_id@,
    {
        let r = joined(&["wecom:", user_id]);
        proof {
            reveal_with_fuel(concat_strs, 3);
        }
        r
    }

    /// Session key for a WeCom bot account: `wecom:account:user` for a named one.
    pub fn wecom_account_user(account: &str, user_id: &str) -> (r: SessionId)
        ensures
            r.0@ == account_user_key("wecom"@, account@, user_id@),
    {
        proof {
            reveal_strlit("wecom:");
            reveal_strlit("wecom");
            reveal_strlit(":");
            reveal_with_fuel(concat_strs, 5);
        }
        if account.unicode_len() == 0 || str_eq(account, "default") {
            let r = Self::wecom_user(user_id);
            assert("wecom:"@ =~= "wecom"@ + ":"@);
            r
        } else {
            let r = joined(&["wecom:", account, ":", user_id]);
            assert("wecom:"@ =~= "wecom"@ + ":"@);
            r
        }
    }

    pub fn feishu_user(user_id: &str) -> (r: SessionId)
        ensures
            r.0@ == "feishu:"@ + user_id@,
    {
        let r = joined(&["feishu:", user_id]);
        proof {
            reveal_with_fuel(concat_strs, 3);
        }
        r
    }

    /// Session key for a Feishu bot account: `feishu:account:user` for a named one.
    pub fn feishu_account_user(account: &str, user_id: &str) -> (r: SessionId)
        ensures
            r.0@ == account_user_key("feishu"@, account@, user_id@),
    {
        proof {
            reveal_strlit("feishu:");
            reveal_strlit("feishu");
            reveal_strlit(":");
            reveal_with_fuel(concat_strs, 5);
        }
        if account.unicode_len() == 0 || str_eq(account, "default") {
            let r = Self::feishu_user(user_id);
            assert("feishu:"@ =~= "feishu"@ + ":"@);
            r
        } else {
            let r = joined(&["feishu:", account, ":", user_id]);
            assert("feishu:"@ =~= "feishu"@ + ":"@);
            r
        }
    }

    /// Personal WeChat is a single private chat: one session per account.
    pub fn weixin_main_session(account: &str) -> (r: SessionId)
        ensures
            r.0@ == if is_default_account(account@) {
                "weixin:main"@
            } else {
                "weixin:"@ + account@ + ":main"@
            },
    {
        proof {
            reveal_with_fuel(concat_strs, 4);
        }
        if account.unicode_len() == 0 || str_eq(account, "default") {
            SessionId(to_string(&chars_of("weixin:main")))
        } else {
            joined(&["weixin:", account, ":main"])
        }
    }
}

} // verus!
