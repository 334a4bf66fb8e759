//! JSON documents as `serde_json` holds them, and the mathematical model
//! through which the rest of the library speaks of them.
//!
//! Everything in this file that is marked `external_body` is believed, not
//! proved: each such function makes one call into `serde_json`, and its
//! contract says what that call does in terms of the model.

use vstd::prelude::*;
use serde_json::Value;

verus! {

/// A JSON document of `serde_json`.
#[verifier::external_type_specification]
#[verifier::external_body]
pub struct ExValue(Value);

/// The members of a JSON object, as `serde_json` keeps them.
#[verifier::external_type_specification]
#[verifier::external_body]
#[verifier::reject_recursive_types(K)]
#[verifier::reject_recursive_types(V)]
pub struct ExObject<K, V>(serde_json::Map<K, V>);

/// An object map with string keys, the only kind that a value holds.
pub type Fields = serde_json::Map<String, Value>;

/// Why a text is no JSON document.
#[verifier::external_type_specification]
#[verifier::external_body]
pub struct ExError(serde_json::Error);

/// A JSON number: a non-negative integer, a negative integer, or anything
/// else, of which only the bit pattern is kept.
pub enum Numeral {
    Unsigned(u64),
    Negative(i64),
    Real { bits: u64 },
}

/// A JSON document as a mathematical value.
pub enum Json {
    Null,
    Bool(bool),
    Number(Numeral),
    Text(Seq<char>),
    List(Seq<Json>),
    Object(Map<Seq<char>, Json>),
}

/// The member of an object under a key; nothing for a missing key and for
/// a document that is no object.
pub open spec fn member_of(doc: Json, key: Seq<char>) -> Option<Json> {
    match doc {
        Json::Object(members) => if members.contains_key(key) {
            Some(members[key])
        } else {
            None
        },
        _ => None,
    }
}

/// The number that a document is, where it is a non-negative integer.
pub open spec fn natural_of(doc: Json) -> Option<u64> {
    match doc {
        Json::Number(Numeral::Unsigned(n)) => Some(n),
        _ => None,
    }
}

/// The text that a document is, where it is a string.
pub open spec fn text_of(doc: Json) -> Option<Seq<char>> {
    match doc {
        Json::Text(text) => Some(text),
        _ => None,
    }
}

/// An object without members.
pub open spec fn no_fields() -> Map<Seq<char>, Json> {
    Map::empty()
}

/// The document that a `serde_json` value holds.
pub uninterp spec fn json_model(value: Value) -> Json;

/// The members that a `serde_json` object map holds, by key.
pub uninterp spec fn json_fields(object: Fields) -> Map<Seq<char>, Json>;

/// The document that a text is read as by `serde_json::from_str`, where it
/// is read as one.
pub uninterp spec fn json_parsed(text: Seq<char>) -> Option<Json>;

/// The compact text that `serde_json` writes for a document.
pub uninterp spec fn json_text(doc: Json) -> Seq<char>;

/// `serde_json::from_str` at type `Value`: the document that the text
/// stands for, or the error where it stands for none. The outcome depends
/// on the text alone.
#[verifier::external_body]
pub(crate) fn parse(text: &str) -> (parsed: Result<Value, serde_json::Error>)
    ensures
        match parsed {
            Ok(value) => json_parsed(text@) == Some(json_model(value)),
            Err(_) => json_parsed(text@) is None,
        },
{
    serde_json::from_str::<Value>(text)
}

/// `Value::get` with a string key: the member of an object under that
/// key, and nothing where the key is missing or the value is no object.
#[verifier::external_body]
pub(crate) fn member<'a>(value: &'a Value, key: &str) -> (found: Option<&'a Value>)
    ensures
        match found {
            Some(inner) => member_of(json_model(*value), key@) == Some(json_model(*inner)),
            None => member_of(json_model(*value), key@) is None,
        },
{
    value.get(key)
}

/// `Value::as_u64`: the number, where the value is a non-negative integer.
#[verifier::external_body]
pub(crate) fn as_natural(value: &Value) -> (n: Option<u64>)
    ensures
        n == natural_of(json_model(*value)),
{
    value.as_u64()
}

/// `Value::as_str`: the text, where the value is a string.
#[verifier::external_body]
pub(crate) fn as_text<'a>(value: &'a Value) -> (text: Option<&'a str>)
    ensures
        match text {
            Some(s) => text_of(json_model(*value)) == Some(s@),
            None => text_of(json_model(*value)) is None,
        },
{
    value.as_str()
}

/// `Value::is_null`.
#[verifier::external_body]
pub(crate) fn is_null(value: &Value) -> (null: bool)
    ensures
        null == (json_model(*value) == Json::Null),
{
    value.is_null()
}

/// `Value`'s `to_string`: the compact text of the document, the members
/// of an object in the order of their keys. It cannot fail, since a value
/// holds string keys and finite numbers only, and the text depends on the
/// document alone.
#[verifier::external_body]
pub(crate) fn to_text(value: &Value) -> (text: String)
    ensures
        text@ == json_text(json_model(*value)),
{
    value.to_string()
}

/// `Value::clone`: a second value that is equal to the first.
#[verifier::external_body]
pub(crate) fn duplicate(value: &Value) -> (copy: Value)
    ensures
        copy == *value,
{
    value.clone()
}

/// `Value::from` on a string slice: the string as a document.
#[verifier::external_body]
pub(crate) fn from_text(text: &str) -> (value: Value)
    ensures
        json_model(value) == Json::Text(text@),
{
    Value::from(text)
}

/// `Value::from` on a `u64`: the number as a document.
#[verifier::external_body]
pub(crate) fn from_natural(n: u64) -> (value: Value)
    ensures
        json_model(value) == Json::Number(Numeral::Unsigned(n)),
{
    Value::from(n)
}

/// `Map::new`: an object map without members.
#[verifier::external_body]
pub(crate) fn object_new() -> (object: Fields)
    ensures
        json_fields(object) == no_fields(),
{
    serde_json::Map::new()
}

/// `Map::insert`: the value stands under the key afterwards, in place of
/// what stood there, and the other members are as before.
#[verifier::external_body]
pub(crate) fn object_insert(object: &mut Fields, key: String, value: Value)
    ensures
        json_fields(*final(object)) == json_fields(*old(object)).insert(key@, json_model(value)),
{
    object.insert(key, value);
}

/// `Value::from` on an object map: the object with those members.
#[verifier::external_body]
pub(crate) fn from_object(object: Fields) -> (value: Value)
    ensures
        json_model(value) == Json::Object(json_fields(object)),
{
    Value::from(object)
}

} // verus!
