//! Settings read from `hi.toml` and the rules that interpret them.
pub mod ai;
pub mod channel_text;
pub mod channels;
pub mod context;
pub mod endpoint;
pub mod feishu;
pub mod gateway;
pub mod gateway_channel;
pub mod hi_toml;
pub mod http;
pub mod locale;
pub mod logging;
pub mod paths;
pub mod storage;
pub mod str_map;
pub mod tools;
pub mod wecom;
pub mod weixin;
