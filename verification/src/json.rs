//! JSON documents as trees, and the trusted boundary to `serde_json`, which
//! reads and writes their text.
use serde_json::Error as JsonError;
use serde_json::Value;
use vstd::prelude::*;

verus! {

/// A JSON document.
#[derive(Debug)]
pub enum Json {
    Null,
    Bool(bool),
    /// A number. It holds the number's value where that is an integer from 0
    /// to `u64::MAX` written without fraction and exponent, and `None` for any
    /// other number.
    Number(Option<u64>),
    Text(String),
    Array(Vec<Json>),
    /// An object: its members, each a key with its value.
    Object(Vec<(String, Json)>),
}

/// The mathematical model of a JSON document.
pub enum JsonValue {
    Null,
    Bool(bool),
    Number(Option<u64>),
    Text(Seq<char>),
    Array(Seq<JsonValue>),
    Object(Seq<(Seq<char>, JsonValue)>),
}

/// The model of a document.
pub open spec fn json_value(doc: Json) -> JsonValue
    decreases doc,
{
    match doc {
        Json::Null => JsonValue::Null,
        Json::Bool(b) => JsonValue::Bool(b),
        Json::Number(n) => JsonValue::Number(n),
        Json::Text(s) => JsonValue::Text(s@),
        Json::Array(items) => JsonValue::Array(
            Seq::new(
                items@.len(),
                |i: int|
                    if 0 <= i < items@.len() {
                        json_value(items@[i])
                    } else {
                        JsonValue::Null
                    },
            ),
        ),
        Json::Object(members) => JsonValue::Object(
            Seq::new(
                members@.len(),
                |i: int|
                    if 0 <= i < members@.len() {
                        (members@[i].0@, json_value(members@[i].1))
                    } else {
                        (Seq::empty(), JsonValue::Null)
                    },
            ),
        ),
    }
}

impl View for Json {
    type V = JsonValue;

    open spec fn view(&self) -> JsonValue {
        json_value(*self)
    }
}

/// The members of an object, as the model has them.
pub open spec fn members_view(members: Seq<(String, Json)>) -> Seq<(Seq<char>, JsonValue)> {
    Seq::new(members.len(), |i: int| (members[i].0@, members[i].1@))
}

/// The items of an array, as the model has them.
pub open spec fn items_view(items: Seq<Json>) -> Seq<JsonValue> {
    Seq::new(items.len(), |i: int| items[i]@)
}

/// The model of an object is made of [`members_view`].
pub proof fn lemma_object_view(members: Vec<(String, Json)>)
    ensures
        Json::Object(members)@ == JsonValue::Object(members_view(members@)),
{
    assert(Json::Object(members)@->Object_0 =~= members_view(members@));
}

/// The model of an array is made of [`items_view`].
pub proof fn lemma_array_view(items: Vec<Json>)
    ensures
        Json::Array(items)@ == JsonValue::Array(items_view(items@)),
{
    assert(Json::Array(items)@->Array_0 =~= items_view(items@));
}

/// `serde_json::Error`: why a text was refused.
#[verifier::external_type_specification]
#[verifier::external_body]
pub struct ExJsonError(JsonError);

/// `serde_json::Value`: a JSON document as `serde_json` holds it.
#[verifier::external_type_specification]
#[verifier::external_body]
pub struct ExValue(Value);

/// The document that `serde_json` reads from a text, or `None` where the text
/// is not one JSON document.
pub uninterp spec fn json_document(text: Seq<u8>) -> Option<JsonValue>;

/// The document that a `serde_json::Value` holds. An object's members stand
/// in the order in which `serde_json` walks them, and of a number the document
/// has what `serde_json::Number::as_u64` gives.
pub uninterp spec fn value_document(value: Value) -> JsonValue;

/// The text that `serde_json` writes for the object with the one member
/// `key`, whose value is the string `value`.
pub uninterp spec fn json_object_text(key: Seq<char>, value: Seq<char>) -> Seq<u8>;

/// `serde_json::from_slice`, reading a `serde_json::Value`: it succeeds on
/// the texts that are one JSON document, and the value it returns holds that
/// document.
#[verifier::external_body]
pub(crate) fn parse_value(text: &[u8]) -> (r: Result<Value, JsonError>)
    ensures
        r is Ok <==> json_document(text@) is Some,
        r matches Ok(value) ==> json_document(text@) == Some(value_document(value)),
{
    serde_json::from_slice::<Value>(text)
}

/// Turns a `serde_json::Value` into a tree, variant for variant, with
/// `serde_json::Number::as_u64` for a number. The tree is the document that
/// [`value_document`] names.
#[verifier::external_body]
pub(crate) fn tree_of(value: Value) -> (doc: Json)
    ensures
        doc@ == value_document(value),
{
    match value {
        Value::Null => Json::Null,
        Value::Bool(b) => Json::Bool(b),
        Value::Number(n) => Json::Number(n.as_u64()),
        Value::String(s) => Json::Text(s),
        Value::Array(items) => Json::Array(items.into_iter().map(tree_of).collect()),
        Value::Object(members) => Json::Object(
            members.into_iter().map(|(k, v)| (k, tree_of(v))).collect(),
        ),
    }
}

/// Reads a JSON document from its text.
pub fn parse_json(text: &[u8]) -> (r: Result<Json, JsonError>)
    ensures
        r is Ok <==> json_document(text@) is Some,
        r matches Ok(doc) ==> json_document(text@) == Some(doc@),
{
    match parse_value(text) {
        Ok(value) => Ok(tree_of(value)),
        Err(e) => Err(e),
    }
}

/// `serde_json::to_vec`, writing the object with one member whose value is a
/// string: what it writes is named by [`json_object_text`]. It does not
/// fail: `to_vec` fails only where the value refuses to be written or a key is
/// no string, and writing into a `Vec` raises no error.
#[verifier::external_body]
pub(crate) fn object_text(key: &str, value: &str) -> (r: Result<Vec<u8>, JsonError>)
    ensures
        r is Ok,
        r matches Ok(text) ==> text@ == json_object_text(key@, value@),
{
    let mut members = serde_json::Map::new();
    members.insert(key.to_owned(), Value::String(value.to_owned()));
    serde_json::to_vec(&Value::Object(members))
}

} // verus!
