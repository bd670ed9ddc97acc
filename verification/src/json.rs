//! JSON documents, as serde_json holds them.
//!
//! The library builds its documents with serde_json and states what it built
//! over `JsonModel`, the value of a document as a plain tree.
use vstd::prelude::*;

verus! {

#[verifier::external_type_specification]
#[verifier::external_body]
pub struct ExJsonValue(serde_json::Value);

#[verifier::external_type_specification]
#[verifier::external_body]
#[verifier::reject_recursive_types(K)]
#[verifier::reject_recursive_types(V)]
pub struct ExJsonMap<K, V>(serde_json::Map<K, V>);

/// The value of a JSON document.
pub enum JsonModel {
    Null,
    Bool(bool),
    /// A number held as an integer.
    Int(int),
    /// A number held in 64-bit floating-point form, by its bits.
    Float(u64),
    Str(Seq<char>),
    Array(Seq<JsonModel>),
    Object(Map<Seq<char>, JsonModel>),
}

/// The value that a `serde_json::Value` holds.
pub uninterp spec fn json_model(v: serde_json::Value) -> JsonModel;

/// The members that a `serde_json::Map` holds, by key.
pub uninterp spec fn json_map_model(m: serde_json::Map<String, serde_json::Value>) -> Map<
    Seq<char>,
    JsonModel,
>;

/// The compact JSON text of a document.
pub uninterp spec fn json_text(doc: JsonModel) -> Seq<char>;

/// The members of an object without members.
pub open spec fn spec_no_members() -> Map<Seq<char>, JsonModel> {
    Map::empty()
}

/// The values that the documents of `items` hold, in order.
pub open spec fn spec_json_models(items: Seq<serde_json::Value>) -> Seq<JsonModel> {
    Seq::new(items.len(), |i: int| json_model(items[i]))
}

/// The member `key` of a document: that member where the document is an
/// object that has it, else null.
pub open spec fn spec_json_member(doc: JsonModel, key: Seq<char>) -> JsonModel {
    match doc {
        JsonModel::Object(members) => if members.contains_key(key) {
            members[key]
        } else {
            JsonModel::Null
        },
        _ => JsonModel::Null,
    }
}

/// `Value::from` of serde_json for a `u64`: the number `n`.
#[verifier::external_body]
pub(crate) fn json_from_u64(n: u64) -> (v: serde_json::Value)
    ensures
        json_model(v) == JsonModel::Int(n as int),
{
    serde_json::Value::from(n)
}

/// `Value::from` of serde_json for an `i64`: the number `n`.
#[verifier::external_body]
pub(crate) fn json_from_i64(n: i64) -> (v: serde_json::Value)
    ensures
        json_model(v) == JsonModel::Int(n as int),
{
    serde_json::Value::from(n)
}

/// `Value::from` of serde_json for a string slice: the string `s`.
#[verifier::external_body]
pub(crate) fn json_from_str(s: &str) -> (v: serde_json::Value)
    ensures
        json_model(v) == JsonModel::Str(s@),
{
    serde_json::Value::from(s)
}

/// `Value::from` of serde_json for a vector of values: the array of the
/// items, in their order.
#[verifier::external_body]
pub(crate) fn json_from_vec(items: Vec<serde_json::Value>) -> (v: serde_json::Value)
    ensures
        json_model(v) == JsonModel::Array(spec_json_models(items@)),
{
    serde_json::Value::from(items)
}

/// `Map::new` of serde_json: a map without members.
#[verifier::external_body]
pub(crate) fn json_map_new() -> (m: serde_json::Map<String, serde_json::Value>)
    ensures
        json_map_model(m) == spec_no_members(),
{
    serde_json::Map::new()
}

/// `Map::insert` of serde_json: the map gets the member `key` with the value
/// `v`, in place of a member of that key that it may have had.
#[verifier::external_body]
pub(crate) fn json_map_insert(
    m: &mut serde_json::Map<String, serde_json::Value>,
    key: &str,
    v: serde_json::Value,
)
    ensures
        json_map_model(*final(m)) == json_map_model(*old(m)).insert(key@, json_model(v)),
{
    m.insert(key.to_string(), v);
}

/// `Value::from` of serde_json for a map: the object with the members of the map.
#[verifier::external_body]
pub(crate) fn json_from_map(m: serde_json::Map<String, serde_json::Value>) -> (v: serde_json::Value)
    ensures
        json_model(v) == JsonModel::Object(json_map_model(m)),
{
    serde_json::Value::from(m)
}

/// Indexing a `Value` of serde_json by a string, and a copy of what is
/// found: the member `key` where `doc` is an object that has it, else null.
#[verifier::external_body]
pub(crate) fn json_member(doc: &serde_json::Value, key: &str) -> (v: serde_json::Value)
    ensures
        json_model(v) == spec_json_member(json_model(*doc), key@),
{
    doc[key].clone()
}

/// `to_string` of a `serde_json::Value`: the compact JSON text of the document.
#[verifier::external_body]
pub(crate) fn json_to_string(doc: &serde_json::Value) -> (text: String)
    ensures
        text@ == json_text(json_model(*doc)),
{
    doc.to_string()
}

/// The object without members.
pub fn json_empty_object() -> (v: serde_json::Value)
    ensures
        json_model(v) == JsonModel::Object(spec_no_members()),
{
    json_from_map(json_map_new())
}

} // verus!
