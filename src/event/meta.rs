//! Meta events: lifecycle and heartbeat.
use vstd::prelude::*;

verus! {

#[derive(Clone, Debug, PartialEq, Eq)]
pub enum Meta {
    Lifecycle(Lifecycle),
    Heartbeat(Heartbeat),
}

#[derive(Clone, Debug, PartialEq, Eq)]
pub struct Lifecycle {
    pub time: i64,
    pub self_id: i64,
    pub post_type: String,
    pub meta_event_type: String,
    pub sub_type: String,
}

#[derive(Clone, Debug, PartialEq, Eq)]
pub struct Heartbeat {
    pub time: i64,
    pub self_id: i64,
    pub post_type: String,
    pub meta_event_type: String,
    pub status: serde_json::Value,
    pub interval: i64,
}

#[derive(Clone, Debug, PartialEq, Eq)]
pub struct Config {
    pub heartbeat_enable: bool,
    pub heartbeat_interval: i64,
}

} // verus!
