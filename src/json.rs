//! The generic JSON document of serde_json, which the library carries through
//! without reading it (heartbeat status, undecoded response data).
use vstd::prelude::*;

verus! {

/// A serde_json document: opaque here, handed on as it came.
#[verifier::external_type_specification]
#[verifier::external_body]
pub struct ExValue(serde_json::Value);

/// Relies on the `Clone` that serde_json derives for `Value`: the copy is the
/// same document.
pub assume_specification[ <serde_json::Value as Clone>::clone ](v: &serde_json::Value) -> (r: serde_json::Value)
    ensures
        r == *v,
;

/// Relies on serde_json's `Map::new` and `Value::Object`: an empty JSON
/// object, `{}`.
#[verifier::external_body]
pub(crate) fn empty_object() -> (r: serde_json::Value) {
    serde_json::Value::Object(serde_json::Map::new())
}

} // verus!
