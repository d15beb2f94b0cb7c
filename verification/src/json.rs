//! The boundary to `serde_json`: a mathematical model of a JSON value, and
//! the few calls into the parser and into `serde_json::Value` that the rest
//! of the library is built on. Nothing in this file is proved; every
//! contract here restates what `serde_json` documents.

use serde_json::Value;
use vstd::prelude::*;

verus! {

/// A JSON value as the library reads it. A number is kept only as far as it
/// is a non-negative integer that fits 64 bits; every other number is
/// `Number(None)`.
pub enum Json {
    Null,
    Bool(bool),
    Number(Option<u64>),
    String(Seq<char>),
    Array(Seq<Json>),
    Object(Map<Seq<char>, Json>),
}

impl Json {
    /// The value under `key` of an object; `Null` where the key is missing
    /// or the value is no object.
    pub open spec fn member(self, key: Seq<char>) -> Json {
        match self {
            Json::Object(fields) => if fields.dom().contains(key) {
                fields[key]
            } else {
                Json::Null
            },
            _ => Json::Null,
        }
    }

    /// The entry at position `index` of an array; `Null` where the array has
    /// no such entry or the value is no array.
    pub open spec fn element(self, index: int) -> Json {
        match self {
            Json::Array(items) => if 0 <= index < items.len() {
                items[index]
            } else {
                Json::Null
            },
            _ => Json::Null,
        }
    }

    /// The entries of an array, in order; none where the value is no array.
    pub open spec fn entries(self) -> Seq<Json> {
        match self {
            Json::Array(items) => items,
            _ => Seq::empty(),
        }
    }

    /// The number as an unsigned integer, where it is one.
    pub open spec fn as_u64(self) -> Option<u64> {
        match self {
            Json::Number(n) => n,
            _ => None,
        }
    }

    /// The text of a string value.
    pub open spec fn as_str(self) -> Option<Seq<char>> {
        match self {
            Json::String(text) => Some(text),
            _ => None,
        }
    }
}

/// `serde_json::Value`, of which the verifier sees nothing but what the
/// contracts below say.
#[verifier::external_type_specification]
#[verifier::external_body]
pub struct ExValue(serde_json::Value);

/// `serde_json::Error`, which is only carried from the parser to
/// `error_text`.
#[verifier::external_type_specification]
#[verifier::external_body]
pub struct ExError(serde_json::Error);

/// What a `serde_json::Value` holds.
pub uninterp spec fn json_of(value: Value) -> Json;

/// What `serde_json::from_str` reads from a text: the value that the text
/// denotes, or `None` where it refuses the text.
pub uninterp spec fn json_decoded(text: Seq<char>) -> Option<Json>;

/// `serde_json::from_str::<Value>`. The parser is a function of the text
/// alone: it either yields the value that `json_decoded` names or fails.
#[verifier::external_body]
pub(crate) fn parse(text: &str) -> (parsed: Result<Value, serde_json::Error>)
    ensures
        match parsed {
            Ok(value) => json_decoded(text@) == Some(json_of(value)),
            Err(_) => json_decoded(text@) is None,
        },
{
    serde_json::from_str::<Value>(text)
}

/// The `Display` text of a `serde_json::Error`. Nothing is claimed of it.
#[verifier::external_body]
pub(crate) fn error_text(error: &serde_json::Error) -> (text: String) {
    error.to_string()
}

/// Indexing a `Value` by a string, `value[key]`: the member of an object
/// under that key, and a null value where there is no such member or the
/// value is no object. It never panics.
#[verifier::external_body]
pub(crate) fn member<'a>(value: &'a Value, key: &str) -> (found: &'a Value)
    ensures
        json_of(*found) == json_of(*value).member(key@),
{
    &value[key]
}

/// `Value::as_array`: the vector inside an array value, `None` for any
/// other value.
#[verifier::external_body]
pub(crate) fn as_array<'a>(value: &'a Value) -> (items: Option<&'a Vec<Value>>)
    ensures
        match items {
            Some(list) => json_of(*value) == Json::Array(
                Seq::new(list@.len(), |i: int| json_of(list@[i])),
            ),
            None => !(json_of(*value) is Array),
        },
{
    value.as_array()
}

/// `Value::as_u64`: the number where the value is a non-negative integer
/// that fits 64 bits, `None` otherwise.
#[verifier::external_body]
pub(crate) fn as_u64(value: &Value) -> (number: Option<u64>)
    ensures
        number == json_of(*value).as_u64(),
{
    value.as_u64()
}

/// `Value::as_str`: the text where the value is a string, `None` otherwise.
#[verifier::external_body]
pub(crate) fn as_str<'a>(value: &'a Value) -> (text: Option<&'a str>)
    ensures
        match text {
            Some(s) => json_of(*value).as_str() == Some(s@),
            None => json_of(*value).as_str() is None,
        },
{
    value.as_str()
}

} // verus!
