//! The calls into `serde_json` and `hyper`. Nothing in this file is proved:
//! each item states what the library takes from the other crate on trust.

use crate::json::{Fraction, Json, JsonNumber, JsonView, Member};
use serde_json::Value;
use vstd::prelude::*;

verus! {

#[verifier::external_type_specification]
#[verifier::external_body]
pub struct ExValue(serde_json::Value);

#[verifier::external_type_specification]
#[verifier::external_body]
pub struct ExNumber(serde_json::Number);

#[verifier::external_type_specification]
#[verifier::external_body]
pub struct ExError(serde_json::Error);

#[verifier::external_type_specification]
#[verifier::external_body]
pub struct ExUri(hyper::Uri);

#[verifier::external_type_specification]
#[verifier::external_body]
pub struct ExInvalidUri(hyper::http::uri::InvalidUri);

/// The JSON text that `serde_json::to_string` writes for a value.
pub uninterp spec fn json_text(value: JsonView) -> Seq<char>;

/// The value that `serde_json::from_slice` reads from a text, or `None`
/// where it refuses the text.
pub uninterp spec fn json_parse(text: Seq<u8>) -> Option<JsonView>;

/// Whether `hyper::Uri`'s `FromStr::from_str` accepts a text as a URI.
pub uninterp spec fn is_uri(text: Seq<char>) -> bool;

/// The URI that `hyper::Uri`'s `FromStr::from_str` reads from a text that
/// it accepts.
pub uninterp spec fn parsed_uri(text: Seq<char>) -> hyper::Uri;

/// `Clone::clone` of `serde_json::Number`: the copy is the same number.
#[verifier::external_body]
pub(crate) fn clone_number(number: &serde_json::Number) -> (r: serde_json::Number)
    ensures
        r == *number,
{
    number.clone()
}

/// Rebuilds a value as a `serde_json::Value`: each variant becomes the
/// variant of the same name, an integer goes through `Value::from`, and an
/// object's entries are collected into a `serde_json::Map` in their order.
#[verifier::external_body]
fn to_value(json: &Json) -> Value
    requires
        json@.wf(),
{
    match json {
        Json::Null => Value::Null,
        Json::Bool(b) => Value::Bool(*b),
        Json::Number(JsonNumber::PosInt(u)) => Value::from(*u),
        Json::Number(JsonNumber::NegInt(i)) => Value::from(*i),
        Json::Number(JsonNumber::Float(f)) => Value::Number(f.number.clone()),
        Json::String(s) => Value::String(s.clone()),
        Json::Array(a) => Value::Array(a.iter().map(to_value).collect()),
        Json::Object(o) => Value::Object(
            o.iter().map(|m| (m.key.clone(), to_value(&m.value))).collect(),
        ),
    }
}

/// Rebuilds a `serde_json::Value` as a value: each variant becomes the
/// variant of the same name. A number is `PosInt` where `as_u64` gives an
/// integer, else `NegInt` where `as_i64` gives one, else it is kept as it
/// is, in a `Fraction`.
#[verifier::external_body]
fn from_value(value: Value) -> Json {
    match value {
        Value::Null => Json::Null,
        Value::Bool(b) => Json::Bool(b),
        Value::Number(n) => Json::Number(match (n.as_u64(), n.as_i64()) {
            (Some(u), _) => JsonNumber::PosInt(u),
            (None, Some(i)) => JsonNumber::NegInt(i),
            (None, None) => JsonNumber::Float(Fraction { number: n }),
        }),
        Value::String(s) => Json::String(s),
        Value::Array(a) => Json::Array(a.into_iter().map(from_value).collect()),
        Value::Object(o) => Json::Object(
            o.into_iter().map(|(key, v)| Member { key, value: from_value(v) }).collect(),
        ),
    }
}

/// `serde_json::to_string`, on the `serde_json::Value` of the same shape.
/// What it writes depends on the value alone. It does not fail: the keys
/// of a `serde_json::Value` are strings, its numbers are finite, and the
/// text is written into memory.
#[verifier::external_body]
pub(crate) fn print(json: &Json) -> (r: Result<String, serde_json::Error>)
    requires
        json@.wf(),
    ensures
        r is Ok,
        r matches Ok(text) ==> text@ == json_text(json@),
{
    serde_json::to_string(&to_value(json))
}

/// `serde_json::from_slice`, reading a `serde_json::Value`. Whether it
/// accepts a text, and what it reads from it, depends on the text alone.
/// What it reads is well formed: a `serde_json::Map` holds no key twice,
/// and `as_i64` gives a negative integer where `as_u64` gave none.
#[verifier::external_body]
pub(crate) fn parse(text: &[u8]) -> (r: Result<Json, serde_json::Error>)
    ensures
        match r {
            Ok(json) => json_parse(text@) == Some(json@) && json@.wf(),
            Err(_) => json_parse(text@).is_none(),
        },
{
    serde_json::from_slice::<serde_json::Value>(text).map(from_value)
}

/// `FromStr::from_str` of `hyper::Uri`. Whether it accepts a text, and the
/// URI that it reads from it, depend on the text alone.
#[verifier::external_body]
pub(crate) fn parse_uri(text: &str) -> (r: Result<hyper::Uri, hyper::http::uri::InvalidUri>)
    ensures
        r is Ok <==> is_uri(text@),
        r matches Ok(uri) ==> uri == parsed_uri(text@),
{
    std::str::FromStr::from_str(text)
}

} // verus!
