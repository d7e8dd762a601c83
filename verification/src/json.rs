//! JSON objects, kept in `serde_json`'s own map.

use crate::text::optional_text;
use vstd::prelude::*;

verus! {

/// A JSON value that a reply can hold.
pub enum Json {
    Null,
    Bool(bool),
    Number(nat),
    Text(Seq<char>),
}

/// `serde_json::Value`: any JSON value.
#[verifier::external_type_specification]
#[verifier::external_body]
pub struct ExJsonValue(serde_json::Value);

/// `serde_json::Map`: the members of a JSON object.
#[verifier::external_type_specification]
#[verifier::external_body]
#[verifier::reject_recursive_types(K)]
#[verifier::reject_recursive_types(V)]
pub struct ExJsonMap<K, V>(serde_json::Map<K, V>);

/// The members of a JSON object, by name.
pub uninterp spec fn json_members(
    object: serde_json::Map<String, serde_json::Value>,
) -> Map<Seq<char>, Json>;

/// `serde_json::Map::new`: an object without members.
#[verifier::external_body]
pub(crate) fn empty_object() -> (object: serde_json::Map<String, serde_json::Value>)
    ensures
        json_members(object) == (Map::<Seq<char>, Json>::empty()),
{
    serde_json::Map::new()
}

/// `serde_json::Map::insert` of a string, made a value by `serde_json::Value::from`: the
/// member `name` now holds it, whatever it held before, and the other members stay.
#[verifier::external_body]
pub(crate) fn insert_text(
    object: &mut serde_json::Map<String, serde_json::Value>,
    name: &str,
    text: &str,
)
    ensures
        json_members(*final(object)) == json_members(*old(object)).insert(
            name@,
            Json::Text(text@),
        ),
{
    object.insert(name.to_string(), serde_json::Value::from(text));
}

/// `serde_json::Map::insert` of a boolean, made a value by `serde_json::Value::from`: the
/// member `name` now holds it, whatever it held before, and the other members stay.
#[verifier::external_body]
pub(crate) fn insert_bool(
    object: &mut serde_json::Map<String, serde_json::Value>,
    name: &str,
    flag: bool,
)
    ensures
        json_members(*final(object)) == json_members(*old(object)).insert(
            name@,
            Json::Bool(flag),
        ),
{
    object.insert(name.to_string(), serde_json::Value::from(flag));
}

/// `serde_json::Map::insert` of a number, made a value by `serde_json::Value::from`: the
/// member `name` now holds it, whatever it held before, and the other members stay.
#[verifier::external_body]
pub(crate) fn insert_number(
    object: &mut serde_json::Map<String, serde_json::Value>,
    name: &str,
    number: u64,
)
    ensures
        json_members(*final(object)) == json_members(*old(object)).insert(
            name@,
            Json::Number(number as nat),
        ),
{
    object.insert(name.to_string(), serde_json::Value::from(number));
}

/// `serde_json::Map::insert` of `serde_json::Value::Null`: the member `name` now holds
/// `null`, whatever it held before, and the other members stay.
#[verifier::external_body]
pub(crate) fn insert_null(
    object: &mut serde_json::Map<String, serde_json::Value>,
    name: &str,
)
    ensures
        json_members(*final(object)) == json_members(*old(object)).insert(name@, Json::Null),
{
    object.insert(name.to_string(), serde_json::Value::Null);
}

/// The JSON value of an optional string: `null` stands for a missing one.
pub open spec fn json_optional(value: Option<Seq<char>>) -> Json {
    match value {
        Some(text) => Json::Text(text),
        None => Json::Null,
    }
}

/// A string that is there is held as it is, however long or short, and `null` stands for
/// a missing one alone.
pub proof fn law_null_stands_for_a_missing_string(value: Option<Seq<char>>)
    ensures
        json_optional(value) == Json::Null <==> value is None,
        value matches Some(text) ==> json_optional(value) == Json::Text(text),
{
}

/// Sets the member `name` to an optional string.
pub(crate) fn insert_optional_text(
    object: &mut serde_json::Map<String, serde_json::Value>,
    name: &str,
    value: &Option<String>,
)
    ensures
        json_members(*final(object)) == json_members(*old(object)).insert(
            name@,
            json_optional(optional_text(*value)),
        ),
        *value matches Some(text) ==> json_members(*final(object))[name@] == Json::Text(text@),
        *value is None ==> json_members(*final(object))[name@] == Json::Null,
        forall|other: Seq<char>|
            other != name@ ==> json_members(*final(object)).contains_key(other) == json_members(
                *old(object),
            ).contains_key(other),
{
    match value {
        Some(text) => insert_text(object, name, text.as_str()),
        None => insert_null(object, name),
    }
}

} // verus!
