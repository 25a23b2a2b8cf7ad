//! The JSON values of `serde_json`, carried through the library unopened.
//!
//! Raw server payloads and error details stay `serde_json::Value`s. The
//! library never branches on their contents; it only builds a few fixed
//! values and renders values as text for messages.

use vstd::prelude::*;

verus! {

/// `serde_json::Value`, an arbitrary JSON document.
#[verifier::external_type_specification]
#[verifier::external_body]
pub struct ExJsonValue(serde_json::Value);

/// `Value::clone` (a derived, field-by-field clone) gives an equal value.
pub assume_specification[ <serde_json::Value as Clone>::clone ](v: &serde_json::Value) -> (r: serde_json::Value)
    ensures
        r == *v,
;

/// `serde_json::Value::Null`, whose JSON text is `null`.
#[verifier::external_body]
pub(crate) fn json_null() -> (r: serde_json::Value)
    ensures
        json_text_of(r) == "null"@,
{
    serde_json::Value::Null
}

/// `serde_json::Value::Object` holding no member, whose JSON text is `{}`.
#[verifier::external_body]
pub(crate) fn json_empty_object() -> (r: serde_json::Value)
    ensures
        json_text_of(r) == "{}"@,
{
    serde_json::Value::Object(serde_json::Map::new())
}

/// The JSON string value holding `text`.
pub uninterp spec fn json_string_value(text: Seq<char>) -> serde_json::Value;

/// `serde_json::Value::String(text)`: the same text always gives the same
/// value; what the opaque value holds is left unsaid.
#[verifier::external_body]
pub(crate) fn json_string(text: String) -> (r: serde_json::Value)
    ensures
        r == json_string_value(text@),
{
    serde_json::Value::String(text)
}

/// The compact JSON text of a value, as `Value`'s `Display` writes it.
pub uninterp spec fn json_text_of(v: serde_json::Value) -> Seq<char>;

/// The compact JSON text of a value (`Value`'s `Display`, through
/// `to_string`): the same value always gives the same text; what the text
/// holds is left unsaid, since the value is opaque here.
#[verifier::external_body]
pub(crate) fn json_text(v: &serde_json::Value) -> (r: String)
    ensures
        r@ == json_text_of(*v),
{
    v.to_string()
}

} // verus!
