//! JSON values: what one is, and the `serde_json` calls that take one apart or build one.

use serde_json::{Map as JsonMap, Value};
use vstd::prelude::*;

verus! {

/// What a JSON value is, apart from how `serde_json` stores it.
pub enum Json {
    Null,
    Bool(bool),
    /// A number that is an integer.
    Int(int),
    /// Any other number, by the bits of the double that holds it.
    Real(u64),
    Str(Seq<char>),
    Array(Seq<Json>),
    Object(Map<Seq<char>, Json>),
}

/// `serde_json::Value`, seen only through [`json_of`].
#[verifier::external_type_specification]
#[verifier::external_body]
pub struct ExValue(Value);

/// `serde_json::Map`, seen only through [`entries_of`].
#[verifier::external_type_specification]
#[verifier::external_body]
#[verifier::reject_recursive_types(K)]
#[verifier::reject_recursive_types(V)]
pub struct ExJsonMap<K, V>(JsonMap<K, V>);

/// The JSON value, a tree of arrays and objects, that a `serde_json::Value` holds.
pub uninterp spec fn json_of(value: serde_json::Value) -> Json;

/// The entries that a `serde_json::Map` holds, by key.
pub uninterp spec fn entries_of(
    map: serde_json::Map<String, serde_json::Value>,
) -> Map<Seq<char>, Json>;

/// The entries of an empty object.
pub open spec fn no_entries() -> Map<Seq<char>, Json> {
    Map::empty()
}

/// The JSON values that a sequence of `serde_json::Value`s holds.
pub open spec fn items_of(values: Seq<Value>) -> Seq<Json> {
    values.map_values(|value: Value| json_of(value))
}

/// `serde_json::Value::as_object`: the entries of an object, and nothing for any other value.
#[verifier::external_body]
pub(crate) fn as_object(value: &Value) -> (object: Option<&JsonMap<String, Value>>)
    ensures
        match object {
            Some(map) => json_of(*value) == Json::Object(entries_of(*map)),
            None => !(json_of(*value) is Object),
        },
{
    value.as_object()
}

/// `serde_json::Value::as_array`: the items of an array, and nothing for any other value.
#[verifier::external_body]
pub(crate) fn as_array(value: &Value) -> (array: Option<&Vec<Value>>)
    ensures
        match array {
            Some(items) => json_of(*value) == Json::Array(items_of(items@)),
            None => !(json_of(*value) is Array),
        },
{
    value.as_array()
}

/// `serde_json::Value::as_str`: the text of a string, and nothing for any other value.
#[verifier::external_body]
pub(crate) fn as_str(value: &Value) -> (string: Option<&str>)
    ensures
        match string {
            Some(text) => json_of(*value) == Json::Str(text@),
            None => !(json_of(*value) is Str),
        },
{
    value.as_str()
}

/// `serde_json::Map::get`: the value under `key`, and nothing where there is none.
#[verifier::external_body]
pub(crate) fn get<'a>(map: &'a JsonMap<String, Value>, key: &str) -> (found: Option<&'a Value>)
    ensures
        match found {
            Some(value) => entries_of(*map).contains_key(key@) && json_of(*value) == entries_of(
                *map,
            )[key@],
            None => !entries_of(*map).contains_key(key@),
        },
{
    map.get(key)
}

/// `serde_json::Map::new`: a map without entries.
#[verifier::external_body]
pub(crate) fn new_map() -> (map: JsonMap<String, Value>)
    ensures
        entries_of(map) == no_entries(),
{
    JsonMap::new()
}

/// `serde_json::Map::insert`: `value` stands under `key`, in place of what stood there.
#[verifier::external_body]
pub(crate) fn insert(map: &mut JsonMap<String, Value>, key: String, value: Value)
    ensures
        entries_of(*final(map)) == entries_of(*old(map)).insert(key@, json_of(value)),
{
    map.insert(key, value);
}

/// `serde_json::Value::Null`: the null value.
#[verifier::external_body]
pub(crate) fn null_value() -> (value: Value)
    ensures
        json_of(value) == Json::Null,
{
    Value::Null
}

/// `serde_json::Value::from` on a `bool`: that truth value.
#[verifier::external_body]
pub(crate) fn bool_value(truth: bool) -> (value: Value)
    ensures
        json_of(value) == Json::Bool(truth),
{
    Value::from(truth)
}

/// `serde_json::Value::from` on an `i64`: that number.
#[verifier::external_body]
pub(crate) fn signed_value(number: i64) -> (value: Value)
    ensures
        json_of(value) == Json::Int(number as int),
{
    Value::from(number)
}

/// `serde_json::Value::from` on a `u64`: that number.
#[verifier::external_body]
pub(crate) fn unsigned_value(number: u64) -> (value: Value)
    ensures
        json_of(value) == Json::Int(number as int),
{
    Value::from(number)
}

/// `serde_json::Value::String`: the string that holds `text`.
#[verifier::external_body]
pub(crate) fn string_value(text: String) -> (value: Value)
    ensures
        json_of(value) == Json::Str(text@),
{
    Value::String(text)
}

/// `serde_json::Value::Array`: the array that holds `items`.
#[verifier::external_body]
pub(crate) fn array_value(items: Vec<Value>) -> (value: Value)
    ensures
        json_of(value) == Json::Array(items_of(items@)),
{
    Value::Array(items)
}

/// `serde_json::Value::Object`: the object that holds the entries of `map`.
#[verifier::external_body]
pub(crate) fn object_value(map: JsonMap<String, Value>) -> (value: Value)
    ensures
        json_of(value) == Json::Object(entries_of(map)),
{
    Value::Object(map)
}

/// The string that holds `text`.
pub fn text_value(text: &str) -> (value: Value)
    ensures
        json_of(value) == Json::Str(text@),
{
    string_value(text.to_owned())
}

/// The array of the strings that hold `texts`, in order.
pub fn texts_value(texts: &[String]) -> (value: Value)
    ensures
        json_of(value) == Json::Array(texts@.map_values(|text: String| Json::Str(text@))),
{
    let mut items: Vec<Value> = Vec::new();
    for at in 0..texts.len()
        invariant
            items_of(items@) == texts@.take(at as int).map_values(|text: String| Json::Str(text@)),
    {
        let ghost before = items@;
        items.push(text_value(texts[at].as_str()));
        assert(items_of(items@) == items_of(before).push(json_of(items@.last())));
        assert(texts@.take(at + 1) == texts@.take(at as int).push(texts@[at as int]));
    }
    assert(texts@.take(texts.len() as int) == texts@);
    array_value(items)
}

/// `map` with `value` under `key`.
pub fn put(map: &mut JsonMap<String, Value>, key: &str, value: Value)
    ensures
        entries_of(*final(map)) == entries_of(*old(map)).insert(key@, json_of(value)),
{
    insert(map, key.to_owned(), value);
}

/// The object whose one entry is `value` under `key`.
pub fn single(key: &str, value: Value) -> (object: Value)
    ensures
        json_of(object) == Json::Object(map![key@ => json_of(value)]),
{
    let mut map = new_map();
    put(&mut map, key, value);
    object_value(map)
}

} // verus!
