//! JSON values of the `serde_json` crate.

use serde_json::Value;
use vstd::prelude::*;

verus! {

/// A JSON value. The library hands it to predicates and key functions and never looks
/// inside.
#[verifier::external_type_specification]
#[verifier::external_body]
pub struct ExJsonValue(serde_json::Value);

/// What `serde_json::from_slice` reads out of `text`: the value, or nothing where it
/// reports an error.
pub uninterp spec fn json_value(text: Seq<u8>) -> Option<Value>;

/// The JSON text `null`.
pub open spec fn null_text() -> Seq<u8> {
    seq![110u8, 117u8, 108u8, 108u8]
}

/// Calls `serde_json::from_slice` for a `Value`: the outcome is a function of the bytes.
#[verifier::external_body]
pub(crate) fn parse_json(text: &[u8]) -> (value: Option<Value>)
    ensures
        value == json_value(text@),
{
    serde_json::from_slice::<Value>(text).ok()
}

/// The variant `serde_json::Value::Null`, which is what the text `null` reads as.
#[verifier::external_body]
pub(crate) fn json_null() -> (value: Value)
    ensures
        json_value(null_text()) == Some(value),
{
    Value::Null
}

} // verus!
