//! Connection configuration and the transport-independent session logic.
pub mod bus;
pub mod http;
pub mod link;
pub mod pending;
pub mod session;
pub mod ws;
pub mod ws_reverse;

use vstd::prelude::*;
use crate::api::payload::ApiPayload;
use crate::api::util::endpoint_of;
use crate::text::{lowercase_of, same_text, to_lowercase};

verus! {

/// How many characters an echo token has.
pub const ECHO_LEN: usize = 10;

pub open spec fn is_alphanumeric(c: char) -> bool {
    ('A' <= c && c <= 'Z') || ('a' <= c && c <= 'z') || ('0' <= c && c <= '9')
}

/// Relies on rand's `Alphanumeric` distribution through `DistString::sample_string`
/// with `thread_rng`: `len` characters, each one of `A`-`Z`, `a`-`z`, `0`-`9`.
#[verifier::external_body]
fn random_alphanumeric(len: usize) -> (r: String)
    ensures
        r@.len() == len,
        forall|i: int| 0 <= i < r@.len() ==> is_alphanumeric(#[trigger] r@[i]),
{
    rand::distributions::DistString::sample_string(
        &rand::distributions::Alphanumeric,
        &mut rand::thread_rng(),
        len,
    )
}

/// A call frame as written to a socket: the action, its parameters and the
/// echo token the response will carry.
#[derive(Clone, Debug, PartialEq, Eq)]
pub struct WsApiPayload {
    pub action: String,
    pub params: serde_json::Value,
    pub echo: String,
}

impl WsApiPayload {
    /// The frame for a call, given the call's parameters as a document, with a
    /// fresh random echo token.
    pub fn new(payload: &ApiPayload, params: serde_json::Value) -> (r: WsApiPayload)
        ensures
            r.action@ == endpoint_of(payload),
            r.params == params,
            r.echo@.len() == ECHO_LEN,
            forall|i: int| 0 <= i < r.echo@.len() ==> is_alphanumeric(#[trigger] r.echo@[i]),
    {
        WsApiPayload { action: payload.endpoint(), params, echo: random_alphanumeric(ECHO_LEN) }
    }
}

/// The role a socket plays: events only, calls only, or both.
#[derive(Clone, Copy, Debug, PartialEq, Eq, Hash)]
pub enum WsType {
    Event,
    Api,
    Universal,
}

/// The role named by an already lower-cased role string.
pub open spec fn ws_type_named(lower: Seq<char>) -> WsType {
    if lower == "event"@ {
        WsType::Event
    } else if lower == "api"@ {
        WsType::Api
    } else {
        WsType::Universal
    }
}

pub open spec fn ws_path(t: WsType) -> Seq<char> {
    match t {
        WsType::Event => "/event"@,
        WsType::Api => "/api"@,
        WsType::Universal => ""@,
    }
}

impl WsType {
    /// Reads a role from an already lower-cased string; anything that is not
    /// `event` or `api` means a universal socket.
    /// Reads a role name, ignoring case.
    pub fn from_str(s: &str) -> (r: WsType)
        ensures
            r == ws_type_named(lowercase_of(s@)),
    {
        let lower = to_lowercase(s);
        WsType::from_lowercase(lower.as_str())
    }

    /// The path an outbound socket of this role connects to.
    pub fn path(&self) -> (r: &'static str)
        ensures
            r@ == ws_path(*self),
    {
        match self {
            WsType::Event => "/event",
            WsType::Api => "/api",
            WsType::Universal => "",
        }
    }

    pub fn from_lowercase(lower: &str) -> (r: WsType)
        ensures
            r == ws_type_named(lower@),
    {
        if same_text(lower, "event") {
            WsType::Event
        } else if same_text(lower, "api") {
            WsType::Api
        } else {
            WsType::Universal
        }
    }
}

} // verus!
