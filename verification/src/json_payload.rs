//! Trusted boundary to `serde_json`: envelopes carry optional JSON payloads
//! of type `serde_json::Value`, which is opaque to the verifier. This module
//! declares the type and the two operations the library needs on it:
//! building the placeholder text value and comparing payloads.

use vstd::prelude::*;

verus! {

/// Declares `serde_json::Value` so it can stand in the envelope's payload
/// fields; the verifier sees nothing inside a value of it.
#[verifier::external_type_specification]
#[verifier::external_body]
pub struct ExValue(serde_json::Value);

/// The JSON string value holding exactly the given characters. The name
/// stands for what `serde_json::Value::String` builds, which depends on those
/// characters alone.
pub uninterp spec fn json_text_of(s: Seq<char>) -> serde_json::Value;

/// Relies on `serde_json::Value::String`: wraps the characters of `s` as a
/// JSON string value, determined by `s` alone.
#[verifier::external_body]
pub(crate) fn json_text(s: &str) -> (v: serde_json::Value)
    ensures
        v == json_text_of(s@),
{
    serde_json::Value::String(s.to_string())
}

/// Relies on the derived `PartialEq` of `serde_json::Value`: structural
/// equality over the whole JSON tree.
#[verifier::external_body]
pub(crate) fn value_eq(a: &serde_json::Value, b: &serde_json::Value) -> (r: bool)
    ensures
        r == (*a == *b),
{
    a == b
}

} // verus!
