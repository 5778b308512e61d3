//! JSON values: what the library reads and writes of `serde_json::Value`.
use vstd::prelude::*;

verus! {

/// A JSON value of `serde_json`. What it holds is told by [`json_members`] and
/// [`json_elements`].
#[verifier::external_type_specification]
#[verifier::external_body]
pub struct ExJsonValue(serde_json::Value);

/// The members of a JSON object, by key; nothing for a value that is no object.
pub uninterp spec fn json_members(value: serde_json::Value) -> Option<Map<Seq<char>, serde_json::Value>>;

/// The elements of a JSON array, in order; nothing for a value that is no array.
pub uninterp spec fn json_elements(value: serde_json::Value) -> Option<Seq<serde_json::Value>>;

/// `serde_json::Value::is_object`: whether the value is an object.
#[verifier::external_body]
pub(crate) fn is_object(value: &serde_json::Value) -> (res: bool)
    ensures
        res == (json_members(*value) is Some),
{
    value.is_object()
}

/// `serde_json::Value::is_array`: whether the value is an array. No array is an
/// object.
#[verifier::external_body]
pub(crate) fn is_array(value: &serde_json::Value) -> (res: bool)
    ensures
        res == (json_elements(*value) is Some),
        res ==> json_members(*value) is None,
{
    value.is_array()
}

/// `serde_json::Value::get` with a text: the member of an object under that key,
/// and nothing where the key is absent or the value is no object.
#[verifier::external_body]
pub(crate) fn member<'a>(value: &'a serde_json::Value, key: &str) -> (res: Option<&'a serde_json::Value>)
    ensures
        res == (match json_members(*value) {
            Some(members) => if members.contains_key(key@) {
                Some(&members[key@])
            } else {
                None
            },
            None => None,
        }),
{
    value.get(key)
}

/// `serde_json::Value::get` with a number: the element of an array at that index,
/// and nothing where the index is past the end or the value is no array.
#[verifier::external_body]
pub(crate) fn element(value: &serde_json::Value, index: usize) -> (res: Option<&serde_json::Value>)
    ensures
        res == (match json_elements(*value) {
            Some(elements) => if index < elements.len() {
                Some(&elements[index as int])
            } else {
                None
            },
            None => None,
        }),
{
    value.get(index)
}

/// `serde_json::Map::new`, as a value: an object without members.
#[verifier::external_body]
pub(crate) fn empty_object() -> (res: serde_json::Value)
    ensures
        json_members(res) == Some(Map::<Seq<char>, serde_json::Value>::empty()),
{
    serde_json::Value::Object(serde_json::Map::new())
}

/// `serde_json::Map::insert` on the object that `serde_json::Value::as_object_mut`
/// gives: the member under the key becomes the given value, the others stay. A value
/// that is no object stays as it is.
#[verifier::external_body]
pub(crate) fn insert_member(value: &mut serde_json::Value, key: &str, member: serde_json::Value)
    ensures
        json_members(*final(value)) == (match json_members(*old(value)) {
            Some(members) => Some(members.insert(key@, member)),
            None => None,
        }),
        json_members(*old(value)) is None ==> *final(value) == *old(value),
{
    if let Some(members) = value.as_object_mut() {
        members.insert(key.to_string(), member);
    }
}

/// Whether there is at least one member.
pub open spec fn any_member(members: Map<Seq<char>, serde_json::Value>) -> bool {
    exists|key: Seq<char>| #[trigger] members.contains_key(key)
}

/// `serde_json::Map::is_empty` on the object that `serde_json::Value::as_object`
/// gives: whether the value is an object with at least one member.
#[verifier::external_body]
pub(crate) fn has_members(value: &serde_json::Value) -> (res: bool)
    ensures
        res == (match json_members(*value) {
            Some(members) => any_member(members),
            None => false,
        }),
{
    value.as_object().is_some_and(|members| !members.is_empty())
}

/// `Clone` of `serde_json::Value`: the same value again.
#[verifier::external_body]
pub(crate) fn clone_json(value: &serde_json::Value) -> (res: serde_json::Value)
    ensures
        res == *value,
{
    value.clone()
}

/// Copies an optional JSON value.
pub fn clone_optional_json(value: &Option<serde_json::Value>) -> (res: Option<serde_json::Value>)
    ensures
        res == *value,
{
    match value {
        Some(inner) => Some(clone_json(inner)),
        None => None,
    }
}

} // verus!
