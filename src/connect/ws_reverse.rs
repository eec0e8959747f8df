//! Reverse-mode transport: this side listens and the peer connects. Before a
//! socket is used its upgrade request must pass the handshake rules.
use vstd::prelude::*;
use crate::connect::{ws_type_named, WsType};
use crate::text::{
    decimal, ends_with, has_suffix, lowercase_of, push_decimal, same_text, trim_end_slashes,
    trim_end_slashes_of,
};

verus! {

/// Where to listen, the path suffix the peer must connect to, and the secret
/// it must present.
#[derive(Clone, Debug, PartialEq, Eq)]
pub struct ReverseWsConfig {
    pub host: String,
    pub port: u16,
    pub suffix: String,
    pub access_token: Option<String>,
}

impl Default for ReverseWsConfig {
    fn default() -> (r: ReverseWsConfig)
        ensures
            r.host@ == "127.0.0.1"@,
            r.port == 8080,
            r.suffix@ == "onebot/v11"@,
            r.access_token.is_none(),
    {
        ReverseWsConfig {
            host: String::from_str("127.0.0.1"),
            port: 8080,
            suffix: String::from_str("onebot/v11"),
            access_token: None,
        }
    }
}

/// What the handshake reads of a peer's upgrade request: its path and the
/// values of its `X-Self-ID`, `X-Client-Role` and `Authorization` headers.
#[derive(Clone, Debug, PartialEq, Eq)]
pub struct HandshakeRequest {
    pub path: String,
    pub self_id: Option<String>,
    pub client_role: Option<String>,
    pub authorization: Option<String>,
}

/// The verdict on an upgrade request.
#[derive(Clone, Debug, PartialEq, Eq)]
pub enum Handshake {
    /// The path does not end with the configured suffix: answer 404.
    NotFound,
    /// The credential does not match the configured secret: answer 401.
    Unauthorized,
    /// The socket may be used; the peer declared this identity and role.
    Accepted { bot_id: Option<String>, role: Option<WsType> },
}

pub open spec fn text_of(o: Option<String>) -> Option<Seq<char>> {
    match o {
        Some(s) => Some(s@),
        None => None,
    }
}

/// The `Authorization` header a peer must send: `Bearer <secret>`, or none
/// when no secret is configured.
pub open spec fn expected_authorization(token: Option<String>) -> Option<Seq<char>> {
    match token {
        Some(t) => Some("Bearer "@ + t@),
        None => None,
    }
}

pub open spec fn role_of(o: Option<String>) -> Option<WsType> {
    match o {
        Some(r) => Some(ws_type_named(lowercase_of(r@))),
        None => None,
    }
}

/// The handshake rules: the path, less trailing slashes, must end with the
/// suffix; then the credential must be exactly the expected one.
pub open spec fn handshake_outcome(req: HandshakeRequest, cfg: ReverseWsConfig) -> Handshake {
    if !has_suffix(trim_end_slashes(req.path@), cfg.suffix@) {
        Handshake::NotFound
    } else if text_of(req.authorization) != expected_authorization(cfg.access_token) {
        Handshake::Unauthorized
    } else {
        Handshake::Accepted { bot_id: req.self_id, role: role_of(req.client_role) }
    }
}

impl ReverseWsConfig {
    /// Judges a peer's upgrade request.
    pub fn check_handshake(&self, req: HandshakeRequest) -> (r: Handshake)
        ensures
            r == handshake_outcome(req, *self),
    {
        let path = trim_end_slashes_of(req.path.as_str());
        if !ends_with(path, self.suffix.as_str()) {
            return Handshake::NotFound;
        }
        let authorized = match (&req.authorization, &self.access_token) {
            (None, None) => true,
            (Some(given), Some(secret)) => {
                let expected = String::from_str("Bearer ").concat(secret.as_str());
                same_text(given.as_str(), expected.as_str())
            },
            _ => false,
        };
        if !authorized {
            return Handshake::Unauthorized;
        }
        let role = match &req.client_role {
            Some(r) => Some(WsType::from_str(r.as_str())),
            None => None,
        };
        Handshake::Accepted { bot_id: req.self_id, role }
    }

    /// The address to listen on, `host:port`.
    pub fn bind_address(&self) -> (r: String)
        ensures
            r@ == self.host@ + ":"@ + decimal(self.port as nat),
    {
        let mut s = self.host.clone();
        s.append(":");
        push_decimal(&mut s, self.port as u64);
        s
    }
}

/// The handshake rules: a request whose path does not end with the suffix is
/// refused as not found; one that does but whose credential differs from the
/// configured secret is refused as unauthorized; any other is accepted, with
/// the identity and role headers it carried.
pub proof fn lemma_handshake_rules(req: HandshakeRequest, cfg: ReverseWsConfig)
    ensures
        !has_suffix(trim_end_slashes(req.path@), cfg.suffix@) ==> handshake_outcome(req, cfg)
            == Handshake::NotFound,
        has_suffix(trim_end_slashes(req.path@), cfg.suffix@) && text_of(req.authorization)
            != expected_authorization(cfg.access_token) ==> handshake_outcome(req, cfg)
            == Handshake::Unauthorized,
        has_suffix(trim_end_slashes(req.path@), cfg.suffix@) && text_of(req.authorization)
            == expected_authorization(cfg.access_token) ==> handshake_outcome(req, cfg) == (
        Handshake::Accepted { bot_id: req.self_id, role: role_of(req.client_role) }),
{
}

} // verus!
