//! Reading a JSON document with `serde_json`.

use vstd::prelude::*;

verus! {

/// A JSON value of `serde_json`.
#[verifier::external_type_specification]
#[verifier::external_body]
pub struct ExValue(serde_json::Value);

/// The error of a document that `serde_json` cannot parse.
#[verifier::external_type_specification]
#[verifier::external_body]
pub struct ExError(serde_json::Error);

/// What a JSON value is, as far as the readers below tell values apart.
pub enum JsonKind {
    Null,
    Bool(bool),
    /// A number that `serde_json` holds as an integer of 64 bits.
    Integer(int),
    /// Any other number.
    Fraction,
    Text(Seq<char>),
    Array,
    Object,
}

/// The document that `serde_json::from_str` reads from a text, if it is one.
pub uninterp spec fn json_document(text: Seq<char>) -> Option<serde_json::Value>;

/// What a JSON value holds.
pub uninterp spec fn json_kind(value: serde_json::Value) -> JsonKind;

/// The members of a JSON object; a value that is no object has none.
pub uninterp spec fn json_members(value: serde_json::Value) -> Map<Seq<char>, serde_json::Value>;

/// `serde_json::from_str::<Value>`: the document that a text holds, a function
/// of the text alone, or an error where the text is no JSON document.
#[verifier::external_body]
pub(crate) fn parse_document(text: &str) -> (r: Result<serde_json::Value, serde_json::Error>)
    ensures
        r is Ok == json_document(text@) is Some,
        r matches Ok(value) ==> json_document(text@) == Some(value),
{
    serde_json::from_str(text)
}

/// `Value`'s index operator with a string: the member of that name, and the
/// null value where there is none.
#[verifier::external_body]
pub(crate) fn member<'a>(value: &'a serde_json::Value, name: &str) -> (r: &'a serde_json::Value)
    ensures
        json_members(*value).contains_key(name@) ==> *r == json_members(*value)[name@],
        !json_members(*value).contains_key(name@) ==> json_kind(*r) == JsonKind::Null,
{
    &value[name]
}

/// `Value::as_bool`: the truth value, where the JSON value is one.
pub assume_specification[ serde_json::Value::as_bool ](value: &serde_json::Value) -> (r: Option<
    bool,
>)
    ensures
        r == match json_kind(*value) {
            JsonKind::Bool(b) => Some(b),
            _ => None,
        },
;

/// `Value::as_i64`: the integer, where the JSON value is one in the range of `i64`.
pub assume_specification[ serde_json::Value::as_i64 ](value: &serde_json::Value) -> (r: Option<i64>)
    ensures
        r == match json_kind(*value) {
            JsonKind::Integer(n) => if i64::MIN <= n <= i64::MAX {
                Some(n as i64)
            } else {
                None
            },
            _ => None,
        },
;

/// `Value::as_u64`: the integer, where the JSON value is one in the range of `u64`.
pub assume_specification[ serde_json::Value::as_u64 ](value: &serde_json::Value) -> (r: Option<u64>)
    ensures
        r == match json_kind(*value) {
            JsonKind::Integer(n) => if 0 <= n <= u64::MAX {
                Some(n as u64)
            } else {
                None
            },
            _ => None,
        },
;

/// `Value::as_str`: the text, where the JSON value is a string.
pub assume_specification[ serde_json::Value::as_str ](value: &serde_json::Value) -> (r: Option<
    &str,
>)
    ensures
        match json_kind(*value) {
            JsonKind::Text(text) => r is Some && r->0@ == text,
            _ => r is None,
        },
;

} // verus!
