//! JSON objects, as `serde_json` holds them.
use vstd::prelude::*;

verus! {

/// A JSON object.
pub type JsonObject = serde_json::Map<String, serde_json::Value>;

/// The map behind a JSON object, from `serde_json`.
#[verifier::external_type_specification]
#[verifier::external_body]
#[verifier::reject_recursive_types(K)]
#[verifier::reject_recursive_types(V)]
pub struct ExJsonMap<K, V>(serde_json::Map<K, V>);

/// A JSON value, from `serde_json`.
#[verifier::external_type_specification]
#[verifier::external_body]
pub struct ExJsonValue(serde_json::Value);

/// For each key of a JSON object the text of a JSON string, or `None`.
pub type Members = Map<Seq<char>, Option<Seq<char>>>;

/// What a JSON object holds: for each of its keys the text, if the value is a
/// JSON string, and `None`, if it is a value of another kind.
pub uninterp spec fn members(
    object: serde_json::Map<String, serde_json::Value>,
) -> Map<Seq<char>, Option<Seq<char>>>;

/// The text that `object` holds under `key`, if it holds a JSON string there.
pub open spec fn text_at(object: JsonObject, key: Seq<char>) -> Option<Seq<char>> {
    if members(object).contains_key(key) {
        members(object)[key]
    } else {
        None
    }
}

/// `serde_json::Map::new`: an object without members.
#[verifier::external_body]
pub(crate) fn new_object() -> (object: JsonObject)
    ensures
        members(object) == Members::empty(),
{
    serde_json::Map::new()
}

/// `serde_json::Map::insert` of a JSON string: the key gets the text, whatever
/// it had before, and no other member changes.
#[verifier::external_body]
pub(crate) fn insert_text(object: &mut JsonObject, key: String, text: String)
    ensures
        members(*final(object)) == members(*old(object)).insert(key@, Some(text@)),
{
    object.insert(key, serde_json::Value::String(text));
}

/// `serde_json::Map::get`, then `serde_json::Value::as_str`: the text under
/// `key`; nothing if there is no such key, or a value that is not a string.
#[verifier::external_body]
pub(crate) fn get_text(object: &JsonObject, key: &str) -> (text: Option<String>)
    ensures
        text.deep_view() == text_at(*object, key@),
{
    let value = object.get(key)?;
    value.as_str().map(|text| text.to_string())
}

} // verus!
