//! The stored payload of a block: a `serde_json` object, and what this library
//! takes to be true of the few `serde_json` functions that read one.

use serde_json::Value;
use vstd::prelude::*;

verus! {

/// `serde_json::Value`, carried through as it is.
#[verifier::external_type_specification]
#[verifier::external_body]
pub struct ExValue(serde_json::Value);

/// `serde_json::Map`, the object a block's payload is stored as.
#[verifier::external_type_specification]
#[verifier::external_body]
#[verifier::reject_recursive_types(K)]
#[verifier::reject_recursive_types(V)]
pub struct ExMap<K, V>(serde_json::Map<K, V>);

/// `serde_json::Error`, what a parse that fails comes back with.
#[verifier::external_type_specification]
#[verifier::external_body]
pub struct ExError(serde_json::Error);

/// What a JSON value is, as far as the ledger reads one.
///
/// An integer that fits an `i64` is told apart from every other number, and an
/// object is known to be one without its contents being read.
pub enum Json {
    Null,
    Bool(bool),
    Int(i64),
    Number,
    Text(Seq<char>),
    List(Seq<Value>),
    Object,
}

/// What a JSON value holds.
pub uninterp spec fn json(value: serde_json::Value) -> Json;

/// What a JSON object holds: its values by key.
pub uninterp spec fn entries(
    fields: serde_json::Map<String, serde_json::Value>,
) -> Map<Seq<char>, serde_json::Value>;

/// The value `serde_json::from_str` reads out of a text, where it reads one.
pub uninterp spec fn parsed_json(text: Seq<char>) -> Option<serde_json::Value>;

/// The JSON string `serde_json::Value::String` makes of a text.
pub uninterp spec fn text_value(text: Seq<char>) -> serde_json::Value;

/// `Value::as_str`: the text of a JSON string, and nothing for any other value.
pub assume_specification[ serde_json::Value::as_str ](value: &Value) -> (text: Option<&str>)
    ensures
        match json(*value) {
            Json::Text(chars) => text matches Some(t) && t@ == chars,
            _ => text is None,
        },
;

/// `Value::as_i64`: the integer a number is, where it is one that fits, and
/// nothing for any other value.
pub assume_specification[ serde_json::Value::as_i64 ](value: &Value) -> (number: Option<i64>)
    ensures
        number == match json(*value) {
            Json::Int(n) => Some(n),
            _ => None,
        },
;

/// `Value::as_bool`: the truth value of a JSON boolean, and nothing for any
/// other value.
pub assume_specification[ serde_json::Value::as_bool ](value: &Value) -> (flag: Option<bool>)
    ensures
        flag == match json(*value) {
            Json::Bool(b) => Some(b),
            _ => None,
        },
;

/// `Value::as_array`: the items of a JSON array in their order, and nothing for
/// any other value.
pub assume_specification[ serde_json::Value::as_array ](value: &Value) -> (items: Option<
    &Vec<Value>,
>)
    ensures
        match json(*value) {
            Json::List(list) => items matches Some(v) && v@ == list,
            _ => items is None,
        },
;

/// `Value::is_null`: whether the value is JSON's null.
pub assume_specification[ serde_json::Value::is_null ](value: &Value) -> (null: bool)
    ensures
        null == (json(*value) is Null),
;

/// `Value::clone`: an equal value.
pub assume_specification[ <serde_json::Value as Clone>::clone ](value: &Value) -> (copy: Value)
    ensures
        copy == *value,
;

/// `serde_json::Map::clone`: an equal object.
pub assume_specification[ <serde_json::Map<String, Value> as Clone>::clone ](
    fields: &serde_json::Map<String, Value>,
) -> (copy: serde_json::Map<String, Value>)
    ensures
        copy == *fields,
;

/// `serde_json::Map::get`: the value stored under a key, and nothing where the
/// object has no such key.
#[verifier::external_body]
pub(crate) fn entry<'a>(fields: &'a serde_json::Map<String, Value>, key: &str) -> (value: Option<
    &'a Value,
>)
    ensures
        match value {
            Some(v) => entries(*fields).dom().contains(key@) && *v == entries(*fields)[key@],
            None => !entries(*fields).dom().contains(key@),
        },
{
    fields.get(key)
}

/// `serde_json::Map::new`: an object with no key.
#[verifier::external_body]
pub(crate) fn no_entries() -> (fields: serde_json::Map<String, Value>)
    ensures
        entries(fields).dom() == Set::<Seq<char>>::empty(),
{
    serde_json::Map::new()
}

/// `serde_json::from_str` into a `Value`: what it reads, named by
/// [`parsed_json`]; an error where it reads nothing.
#[verifier::external_body]
pub(crate) fn parse_json(text: &str) -> (value: Result<Value, serde_json::Error>)
    ensures
        match value {
            Ok(v) => parsed_json(text@) == Some(v),
            Err(_) => parsed_json(text@) is None,
        },
{
    serde_json::from_str(text)
}

/// `Value::String`: the JSON string that holds the text.
#[verifier::external_body]
pub(crate) fn string_value(text: String) -> (value: Value)
    ensures
        value == text_value(text@),
        json(value) == Json::Text(text@),
{
    Value::String(text)
}

} // verus!
