//! The JSON values that the library builds, through `serde_json`.
//!
//! The library only ever builds flat objects whose fields are strings or
//! unsigned numbers; the names below give the fields that such an object
//! holds, by key.

use vstd::prelude::*;

verus! {

#[verifier::external_type_specification]
#[verifier::external_body]
pub struct ExJsonValue(serde_json::Value);

#[verifier::external_type_specification]
#[verifier::external_body]
#[verifier::reject_recursive_types(K)]
#[verifier::reject_recursive_types(V)]
pub struct ExJsonMap<K, V>(serde_json::Map<K, V>);

/// The map that a JSON object holds.
pub type JsonObject = serde_json::Map<String, serde_json::Value>;

/// A field value of a flat JSON object: a string or an unsigned number.
pub enum JsonField {
    Text(Seq<char>),
    UInt(nat),
}

/// The fields of an empty object.
pub open spec fn no_fields() -> Map<Seq<char>, JsonField> {
    Map::empty()
}

/// The fields that a `serde_json::Map` holds, by key.
pub uninterp spec fn json_map_fields(m: JsonObject) -> Map<Seq<char>, JsonField>;

/// The fields that a JSON object value holds, by key.
pub uninterp spec fn json_object_fields(v: serde_json::Value) -> Map<Seq<char>, JsonField>;

/// Calls `serde_json::Map::new`, which makes a map with no entry.
#[verifier::external_body]
pub(crate) fn json_map_new() -> (fresh: JsonObject)
    ensures
        json_map_fields(fresh) == no_fields(),
{
    serde_json::Map::new()
}

/// Calls `serde_json::Map::insert` with the key `key` and the JSON string
/// `text`: the entry for `key` is added, or replaced where it was there.
#[verifier::external_body]
pub(crate) fn json_map_insert_text(
    m: &mut JsonObject,
    key: &str,
    text: &str,
)
    ensures
        json_map_fields(*final(m)) == json_map_fields(*old(m)).insert(key@, JsonField::Text(text@)),
{
    m.insert(key.to_string(), serde_json::Value::from(text));
}

/// Calls `serde_json::Map::insert` with the key `key` and the JSON number
/// `n`: the entry for `key` is added, or replaced where it was there.
#[verifier::external_body]
pub(crate) fn json_map_insert_uint(
    m: &mut JsonObject,
    key: &str,
    n: u32,
)
    ensures
        json_map_fields(*final(m)) == json_map_fields(*old(m)).insert(key@, JsonField::UInt(n as nat)),
{
    m.insert(key.to_string(), serde_json::Value::from(n));
}

/// Wraps a map in `serde_json::Value::Object`: the object holds the map's
/// entries.
#[verifier::external_body]
pub(crate) fn json_object(m: JsonObject) -> (v: serde_json::Value)
    ensures
        json_object_fields(v) == json_map_fields(m),
{
    serde_json::Value::Object(m)
}

} // verus!
