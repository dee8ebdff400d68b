//! JSON objects and the bytes they are written as.

use vstd::prelude::*;

verus! {

/// The object type of serde_json. Opaque here: its members are named by `object_members`.
#[verifier::external_type_specification]
#[verifier::external_body]
#[verifier::reject_recursive_types(K)]
#[verifier::reject_recursive_types(V)]
pub struct ExMap<K, V>(serde_json::Map<K, V>);

/// The value type of serde_json. Opaque here.
#[verifier::external_type_specification]
#[verifier::external_body]
pub struct ExValue(serde_json::Value);

/// What serde_json returns where it could not write a value.
#[verifier::external_type_specification]
#[verifier::external_body]
pub struct ExError(serde_json::Error);

/// A JSON object under construction.
pub type JsonObject = serde_json::Map<String, serde_json::Value>;

/// A JSON value, as far as reports need one.
pub enum JsonModel {
    Null,
    Bool(bool),
    Number(nat),
    Text(Seq<char>),
    Object(Map<Seq<char>, JsonModel>),
}

/// The members of an object: each name with its value.
pub uninterp spec fn object_members(object: serde_json::Map<String, serde_json::Value>) -> Map<
    Seq<char>,
    JsonModel,
>;

/// The bytes that serde_json writes for an object with these members, without white space
/// between them.
pub uninterp spec fn object_text(members: Map<Seq<char>, JsonModel>) -> Seq<u8>;

/// The members of an empty object.
pub open spec fn no_members() -> Map<Seq<char>, JsonModel> {
    Map::empty()
}

/// A value to be put into an object.
pub enum Json {
    Null,
    Bool(bool),
    Number(u64),
    Text(String),
    Object(JsonObject),
}

impl Json {
    /// The value that this stands for.
    pub open spec fn model(self) -> JsonModel {
        match self {
            Json::Null => JsonModel::Null,
            Json::Bool(value) => JsonModel::Bool(value),
            Json::Number(value) => JsonModel::Number(value as nat),
            Json::Text(value) => JsonModel::Text(value@),
            Json::Object(value) => JsonModel::Object(object_members(value)),
        }
    }
}

/// `serde_json::Map::new`: an object without members.
#[verifier::external_body]
pub(crate) fn new_object() -> (object: JsonObject)
    ensures
        object_members(object) == no_members(),
{
    serde_json::Map::new()
}

/// `serde_json::Map::insert`: the object has the value under that name afterwards, in place of
/// whatever stood there, and its other members as before.
#[verifier::external_body]
pub(crate) fn put(object: &mut JsonObject, name: &str, value: Json)
    ensures
        object_members(*final(object)) == object_members(*old(object)).insert(name@, value.model()),
{
    let value = match value {
        Json::Null => serde_json::Value::Null,
        Json::Bool(value) => serde_json::Value::Bool(value),
        Json::Number(value) => serde_json::Value::from(value),
        Json::Text(value) => serde_json::Value::String(value),
        Json::Object(value) => serde_json::Value::Object(value),
    };
    object.insert(name.to_owned(), value);
}

/// `serde_json::to_vec` on an object. It succeeds: the names of an object are texts, a value of
/// serde_json never refuses to be written, and a vector takes every byte. Its bytes are a function
/// of the members alone: the map behind an object is sorted by name. The compact form writes no
/// white space between the members and escapes every control character inside a text, so that no
/// line feed occurs.
#[verifier::external_body]
fn object_to_vec(object: &JsonObject) -> (bytes: Result<Vec<u8>, serde_json::Error>)
    ensures
        bytes is Ok,
        bytes matches Ok(bytes) ==> bytes@ == object_text(object_members(*object)),
        bytes matches Ok(bytes) ==> !bytes@.contains(10u8),
{
    serde_json::to_vec(object)
}

/// The bytes of an object. They hold no line feed.
pub fn object_bytes(object: &JsonObject) -> (bytes: Vec<u8>)
    ensures
        bytes@ == object_text(object_members(*object)),
        !bytes@.contains(10u8),
{
    object_to_vec(object).unwrap()
}

/// The line that holds an object with these members: its bytes and a line feed.
pub open spec fn object_line(members: Map<Seq<char>, JsonModel>) -> Seq<u8> {
    object_text(members).push(10u8)
}

/// Whether bytes are one line: a line feed ends them and occurs nowhere else.
pub open spec fn is_line(bytes: Seq<u8>) -> bool {
    &&& bytes.len() > 0
    &&& bytes.last() == 10
    &&& !bytes.drop_last().contains(10u8)
}

/// The line that holds an object.
pub fn line(object: &JsonObject) -> (line: Vec<u8>)
    ensures
        line@ == object_line(object_members(*object)),
        is_line(line@),
{
    let mut line = object_bytes(object);
    let ghost text = line@;
    line.push(10);
    assert(line@.drop_last() == text);
    line
}

/// A value stands for itself: different values stand for different ones.
pub proof fn law_values_stand_for_themselves(flag: bool, number: u64, text: String, object: JsonObject)
    ensures
        Json::Null.model() == JsonModel::Null,
        Json::Bool(flag).model() == JsonModel::Bool(flag),
        Json::Number(number).model() == JsonModel::Number(number as nat),
        Json::Text(text).model() == JsonModel::Text(text@),
        Json::Object(object).model() == JsonModel::Object(object_members(object)),
{
}

/// The line of an object is its bytes and a line feed behind them.
pub proof fn law_lines_hold_their_object(members: Map<Seq<char>, JsonModel>)
    ensures
        object_line(members).len() == object_text(members).len() + 1,
        object_line(members).drop_last() == object_text(members),
        object_line(members).last() == 10,
{
    assert(object_line(members).drop_last() =~= object_text(members));
}

} // verus!
