//! HTTP gateway listener (`[channels.http]`).
use vstd::prelude::*;
use crate::error::Error;
use crate::text::{chars_of, decimal, decimal_spec, push_all, str_eq, to_string, trim, trim_spec};

verus! {

pub const DEFAULT_HTTP_PORT: u16 = 9527;

/// HTTP gateway listener settings.
#[derive(Debug, Clone, PartialEq, Eq)]
pub struct HttpConfig {
    pub enabled: bool,
    pub host: String,
    pub port: u16,
    pub token: String,
}

pub open spec fn default_http_host_spec() -> Seq<char> {
    "127.0.0.1"@
}

impl Default for HttpConfig {
    fn default() -> (r: Self)
        ensures
            r.enabled,
            r.host@ == default_http_host_spec(),
            r.port == DEFAULT_HTTP_PORT,
            r.token@.len() == 0,
    {
        proof {
            reveal_strlit("");
        }
        HttpConfig {
            enabled: true,
            host: String::from_str("127.0.0.1"),
            port: DEFAULT_HTTP_PORT,
            token: String::from_str(""),
        }
    }
}

pub open spec fn is_loopback_host(h: Seq<char>) -> bool {
    h == "127.0.0.1"@ || h == "localhost"@ || h == "::1"@ || h == "[::1]"@
}

/// The reason refused by `validate_for_start`.
pub open spec fn http_token_required_spec() -> Seq<char> {
    "channels.http: binding a non-loopback address requires a non-empty token"@
}

impl HttpConfig {
    /// Nothing differs from the defaults but that the listener is disabled.
    pub fn is_empty(&self) -> (r: bool)
        ensures
            r == (!self.enabled && self.host@ == default_http_host_spec() && self.port
                == DEFAULT_HTTP_PORT && self.token@.len() == 0),
    {
        !self.enabled && str_eq(self.host.as_str(), "127.0.0.1") && self.port == DEFAULT_HTTP_PORT
            && self.token.as_str().unicode_len() == 0
    }

    /// `host:port` with the host trimmed.
    pub fn bind_addr(&self) -> (r: String)
        ensures
            r@ == trim_spec(self.host@) + ":"@ + decimal_spec(self.port as nat),
    {
        let h = chars_of(self.host.as_str());
        let mut out = trim(&h);
        let colon = chars_of(":");
        push_all(&mut out, &colon);
        let d = decimal(self.port as u64);
        push_all(&mut out, &d);
        to_string(&out)
    }

    pub fn is_loopback(&self) -> (r: bool)
        ensures
            r == is_loopback_host(trim_spec(self.host@)),
    {
        let h = chars_of(self.host.as_str());
        let t = to_string(&trim(&h));
        str_eq(t.as_str(), "127.0.0.1") || str_eq(t.as_str(), "localhost") || str_eq(
            t.as_str(),
            "::1",
        ) || str_eq(t.as_str(), "[::1]")
    }

    /// A non-loopback listener needs a token.
    pub fn validate_for_start(&self) -> (r: Result<(), Error>)
        ensures
            r is Ok <==> (is_loopback_host(trim_spec(self.host@)) || trim_spec(self.token@).len()
                > 0),
            r matches Err(Error::Message(m)) ==> m@ == http_token_required_spec(),
            !(r matches Err(Error::Localized(_, _))),
    {
        let tk = chars_of(self.token.as_str());
        if !self.is_loopback() && trim(&tk).len() == 0 {
            return Err(
                Error::Message(
                    String::from_str(
                        "channels.http: binding a non-loopback address requires a non-empty token",
                    ),
                ),
            );
        }
        Ok(())
    }
}

} // verus!
