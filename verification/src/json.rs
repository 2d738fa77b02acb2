//! JSON values.
//!
//! A `serde_json::Value` is opaque here. What it stands for is its tree, and
//! each function below says what one operation of `serde_json` does to trees.

use serde_json::Value;

use vstd::prelude::*;

verus! {

#[verifier::external_type_specification]
#[verifier::external_body]
pub struct ExJsonValue(serde_json::Value);

/// What a JSON value stands for.
pub enum JsonTree {
    Null,
    Bool(bool),
    Integer(int),
    /// A number that is not an integer, by its text.
    Real(Seq<char>),
    Text(Seq<char>),
    List(Seq<JsonTree>),
    Table(Map<Seq<char>, JsonTree>),
}

/// What `value` stands for.
pub uninterp spec fn json_tree(value: serde_json::Value) -> JsonTree;

/// What `serde_json::from_slice` reads from `bytes`, if they are JSON text.
pub uninterp spec fn json_parse(bytes: Seq<u8>) -> Option<JsonTree>;

/// The compact text that `serde_json::to_string` writes for `tree`.
pub uninterp spec fn json_text(tree: JsonTree) -> Option<Seq<char>>;

/// The compact text that `serde_json::to_vec` writes for `tree`.
pub uninterp spec fn json_bytes(tree: JsonTree) -> Option<Seq<u8>>;

/// The member `key` of `tree`, if `tree` is an object that has one.
pub open spec fn member(tree: JsonTree, key: Seq<char>) -> Option<JsonTree> {
    match tree {
        JsonTree::Table(entries) => if entries.dom().contains(key) {
            Some(entries[key])
        } else {
            None
        },
        _ => None,
    }
}

/// The text of `tree`, if it is a string.
pub open spec fn text_of(tree: JsonTree) -> Option<Seq<char>> {
    match tree {
        JsonTree::Text(text) => Some(text),
        _ => None,
    }
}

/// `object` with the member `key` set to `item`.
pub open spec fn with_member(object: JsonTree, key: Seq<char>, item: JsonTree) -> JsonTree {
    match object {
        JsonTree::Table(entries) => JsonTree::Table(entries.insert(key, item)),
        _ => object,
    }
}

/// An object without members.
pub open spec fn empty_object() -> JsonTree {
    JsonTree::Table(Map::empty())
}

/// `serde_json::from_slice` into a `Value`: the value that the bytes spell,
/// or nothing where they are not JSON text. Which bytes spell which value is
/// left to the name `json_parse`.
#[verifier::external_body]
pub(crate) fn json_from_slice(bytes: &[u8]) -> (r: Option<Value>)
    ensures
        r is Some <==> json_parse(bytes@) is Some,
        r is Some ==> json_tree(r->Some_0) == json_parse(bytes@)->Some_0,
{
    serde_json::from_slice(bytes).ok()
}

/// `serde_json::to_string` of a `Value`: its compact text, or nothing where it
/// cannot be written.
#[verifier::external_body]
pub(crate) fn json_to_string(value: &Value) -> (r: Option<String>)
    ensures
        r is Some <==> json_text(json_tree(*value)) is Some,
        r is Some ==> r->Some_0@ == json_text(json_tree(*value))->Some_0,
{
    serde_json::to_string(value).ok()
}

/// `serde_json::to_vec` of a `Value`: its compact text as bytes, or nothing
/// where it cannot be written.
#[verifier::external_body]
pub(crate) fn json_to_vec(value: &Value) -> (r: Option<Vec<u8>>)
    ensures
        r is Some <==> json_bytes(json_tree(*value)) is Some,
        r is Some ==> r->Some_0@ == json_bytes(json_tree(*value))->Some_0,
{
    serde_json::to_vec(value).ok()
}

/// `Value::is_null`: whether the value is null.
#[verifier::external_body]
pub(crate) fn json_is_null(value: &Value) -> (r: bool)
    ensures
        r == (json_tree(*value) is Null),
{
    value.is_null()
}

/// `Value::is_array`: whether the value is an array.
#[verifier::external_body]
pub(crate) fn json_is_array(value: &Value) -> (r: bool)
    ensures
        r == (json_tree(*value) is List),
{
    value.is_array()
}

/// `Value::is_object`: whether the value is an object.
#[verifier::external_body]
pub(crate) fn json_is_object(value: &Value) -> (r: bool)
    ensures
        r == (json_tree(*value) is Table),
{
    value.is_object()
}

/// `Value::get` with a text: the member of that name, if the value is an
/// object that has one.
#[verifier::external_body]
pub(crate) fn json_get<'a>(value: &'a Value, key: &str) -> (r: Option<&'a Value>)
    ensures
        r is Some <==> member(json_tree(*value), key@) is Some,
        r is Some ==> json_tree(*r->Some_0) == member(json_tree(*value), key@)->Some_0,
{
    value.get(key)
}

/// `Value::as_str`: the text of the value, if it is a string.
#[verifier::external_body]
pub(crate) fn json_as_str<'a>(value: &'a Value) -> (r: Option<&'a str>)
    ensures
        r is Some <==> text_of(json_tree(*value)) is Some,
        r is Some ==> r->Some_0@ == text_of(json_tree(*value))->Some_0,
{
    value.as_str()
}

/// `Value::clone`: a value that stands for the same.
#[verifier::external_body]
pub(crate) fn json_clone(value: &Value) -> (r: Value)
    ensures
        json_tree(r) == json_tree(*value),
{
    value.clone()
}

/// `Value::Null`.
#[verifier::external_body]
pub(crate) fn json_null() -> (r: Value)
    ensures
        json_tree(r) is Null,
{
    Value::Null
}

/// `Value::String`: the string with the given text.
#[verifier::external_body]
pub(crate) fn json_string(text: &str) -> (r: Value)
    ensures
        json_tree(r) == JsonTree::Text(text@),
{
    Value::String(text.to_owned())
}

/// `Value::from` for an `i64`: the number.
#[verifier::external_body]
pub(crate) fn json_integer(number: i64) -> (r: Value)
    ensures
        json_tree(r) == JsonTree::Integer(number as int),
{
    Value::from(number)
}

/// `serde_json::Map::new` as a `Value`: an object without members.
#[verifier::external_body]
pub(crate) fn json_object() -> (r: Value)
    ensures
        json_tree(r) == empty_object(),
{
    Value::Object(serde_json::Map::new())
}

/// `serde_json::Map::insert` on the members of an object: sets one member and
/// keeps the others.
#[verifier::external_body]
pub(crate) fn json_insert(object: &mut Value, key: &str, item: Value)
    requires
        json_tree(*old(object)) is Table,
    ensures
        json_tree(*final(object)) == with_member(json_tree(*old(object)), key@, json_tree(item)),
{
    match object {
        Value::Object(entries) => {
            entries.insert(key.to_owned(), item);
        },
        _ => {},
    }
}

} // verus!
