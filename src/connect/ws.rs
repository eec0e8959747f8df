//! Outbound socket transport: its configuration and address.
use vstd::prelude::*;
use crate::connect::{ws_path, WsType};
use crate::text::{decimal, push_decimal};

verus! {

/// Where and how to connect to the peer.
#[derive(Clone, Debug, PartialEq, Eq)]
pub struct WsConfig {
    pub host: String,
    pub port: u16,
    pub type_: WsType,
    pub bot_id: Option<String>,
    pub bot_nick_name: Option<String>,
    pub access_token: Option<String>,
}

impl Default for WsConfig {
    fn default() -> (r: WsConfig)
        ensures
            r.host@ == "127.0.0.1"@,
            r.port == 8081,
            r.type_ == WsType::Universal,
            r.bot_id.is_none(),
            r.bot_nick_name.is_none(),
            r.access_token.is_none(),
    {
        WsConfig {
            host: String::from_str("127.0.0.1"),
            port: 8081,
            type_: WsType::Universal,
            bot_id: None,
            bot_nick_name: None,
            access_token: None,
        }
    }
}

pub open spec fn ws_url_of(host: Seq<char>, port: u16, t: WsType) -> Seq<char> {
    "ws://"@ + host + ":"@ + decimal(port as nat) + ws_path(t)
}

impl WsConfig {
    /// The URL of the peer's socket for this configuration's role.
    pub fn url(&self) -> (r: String)
        ensures
            r@ == ws_url_of(self.host@, self.port, self.type_),
    {
        let mut s = String::from_str("ws://");
        s.append(self.host.as_str());
        s.append(":");
        push_decimal(&mut s, self.port as u64);
        s.append(self.type_.path());
        s
    }
}

} // verus!
