//! JSON documents, as `serde_json` reads them.
//!
//! Parsing is left to `serde_json`. What it produces is described here by a
//! mathematical model, [`Json`], and the few operations the argument parser needs
//! are given contracts over that model.

use vstd::prelude::*;

verus! {

/// Mathematical model of a JSON value.
///
/// A number is modelled by the bit pattern of the IEEE 754 double that stands for it.
pub enum Json {
    Null,
    Bool(bool),
    Number(u64),
    Text(Seq<char>),
    Array(Seq<Json>),
    Object(Map<Seq<char>, Json>),
}

impl Json {
    /// The member stored under `key`, if this value is an object that has one.
    pub open spec fn member(self, key: Seq<char>) -> Option<Json> {
        match self {
            Json::Object(members) => if members.contains_key(key) {
                Some(members[key])
            } else {
                None
            },
            _ => None,
        }
    }

    /// The bits of the double, if this value is a number.
    pub open spec fn number(self) -> Option<u64> {
        match self {
            Json::Number(bits) => Some(bits),
            _ => None,
        }
    }

    /// The characters, if this value is a string.
    pub open spec fn text(self) -> Option<Seq<char>> {
        match self {
            Json::Text(chars) => Some(chars),
            _ => None,
        }
    }
}

/// Makes `serde_json::Value` known to the verifier, as a type it cannot look into.
#[verifier::external_type_specification]
#[verifier::external_body]
pub struct ExValue(serde_json::Value);

/// What `serde_json::from_str` makes of a text: the value it parses to, or the
/// rendered message of the error it reports.
pub uninterp spec fn json_document(text: Seq<char>) -> Result<Json, Seq<char>>;

/// The JSON value that a `serde_json::Value` holds.
pub uninterp spec fn json_model(value: serde_json::Value) -> Json;

/// Calls `serde_json::from_str::<serde_json::Value>`.
///
/// Trusted: the outcome depends on the text alone. On success the value holds the
/// document named by [`json_document`]; on failure the string is the error's
/// `Display` rendering.
#[verifier::external_body]
pub(crate) fn parse_document(text: &str) -> (r: Result<serde_json::Value, String>)
    ensures
        match r {
            Ok(value) => json_document(text@) == Ok::<Json, Seq<char>>(json_model(value)),
            Err(detail) => json_document(text@) == Err::<Json, Seq<char>>(detail@),
        },
{
    match serde_json::from_str::<serde_json::Value>(text) {
        Ok(value) => Ok(value),
        Err(error) => Err(error.to_string()),
    }
}

/// Calls `serde_json::Value::get` with a string key.
///
/// Trusted: yields the member stored under `key` when the value is an object
/// that has one, and nothing for a missing key or for any value that is not an object.
#[verifier::external_body]
pub(crate) fn member<'a>(value: &'a serde_json::Value, key: &str) -> (r: Option<
    &'a serde_json::Value,
>)
    ensures
        match r {
            Some(found) => json_model(*value).member(key@) == Some(json_model(*found)),
            None => json_model(*value).member(key@) is None,
        },
{
    value.get(key)
}

/// Calls `serde_json::Value::as_f64` and hands the double over as its bit pattern.
///
/// Trusted: yields the double exactly when the value is a number.
#[verifier::external_body]
pub(crate) fn number_bits(value: &serde_json::Value) -> (r: Option<u64>)
    ensures
        r == json_model(*value).number(),
{
    value.as_f64().map(|double| double.to_bits())
}

/// Calls `serde_json::Value::as_str`.
///
/// Trusted: yields the string's characters exactly when the value is a string.
#[verifier::external_body]
pub(crate) fn text_slice<'a>(value: &'a serde_json::Value) -> (r: Option<&'a str>)
    ensures
        match r {
            Some(slice) => json_model(*value).text() == Some(slice@),
            None => json_model(*value).text() is None,
        },
{
    value.as_str()
}

} // verus!
