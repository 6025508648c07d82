//! JSON documents for the text frames that go out on a socket.
//!
//! The documents themselves are `serde_json` values. [`Json`] is what such a value denotes, and
//! every message of the crate is specified as one of those.
use vstd::prelude::*;

verus! {

/// What a JSON document denotes.
#[verifier::ext_equal]
pub ghost enum Json {
    Bool(bool),
    /// A non-negative integer, written without a fraction.
    Integer(nat),
    /// A floating-point number whose value is a whole number.
    Whole(nat),
    Text(Seq<char>),
    List(Seq<Json>),
    Object(Map<Seq<char>, Json>),
}

/// `serde_json::Value`, a JSON document in memory.
#[verifier::external_type_specification]
#[verifier::external_body]
pub struct ExValue(serde_json::Value);

/// `serde_json::Map`, the members of a JSON object.
#[verifier::external_type_specification]
#[verifier::external_body]
#[verifier::reject_recursive_types(K)]
#[verifier::reject_recursive_types(V)]
pub struct ExObject<K, V>(serde_json::Map<K, V>);

/// The document that a `serde_json::Value` holds.
pub uninterp spec fn document(value: serde_json::Value) -> Json;

/// The members that a `serde_json::Map` holds.
pub uninterp spec fn members(object: serde_json::Map<String, serde_json::Value>) -> Map<
    Seq<char>,
    Json,
>;

/// The compact text of a document, as `serde_json` writes it.
pub uninterp spec fn compact_text(document: Json) -> Seq<char>;

/// The members of an object that has none.
pub open spec fn no_members() -> Map<Seq<char>, Json> {
    Map::empty()
}

/// The documents of a sequence of values.
pub open spec fn documents(values: Seq<serde_json::Value>) -> Seq<Json> {
    Seq::new(values.len(), |i: int| document(values[i]))
}

/// The member of an object with this name, where there is one.
pub open spec fn member(document: Json, name: Seq<char>) -> Option<Json> {
    match document {
        Json::Object(members) => if members.dom().contains(name) {
            Some(members[name])
        } else {
            None
        },
        _ => None,
    }
}

/// The names of the members of an object.
pub open spec fn names(document: Json) -> Set<Seq<char>> {
    match document {
        Json::Object(members) => members.dom(),
        _ => Set::empty(),
    }
}

/// `serde_json::Value::from(&str)`: the document is the string.
#[verifier::external_body]
pub(crate) fn text_value(text: &str) -> (value: serde_json::Value)
    ensures
        document(value) == Json::Text(text@),
{
    serde_json::Value::from(text)
}

/// `serde_json::Value::from(bool)`: the document is the truth value.
#[verifier::external_body]
pub(crate) fn bool_value(flag: bool) -> (value: serde_json::Value)
    ensures
        document(value) == Json::Bool(flag),
{
    serde_json::Value::from(flag)
}

/// `serde_json::Value::from(u32)`: the document is the integer.
#[verifier::external_body]
pub(crate) fn integer_value(number: u32) -> (value: serde_json::Value)
    ensures
        document(value) == Json::Integer(number as nat),
{
    serde_json::Value::from(number)
}

/// `serde_json::from_str` on the digits of `number` followed by `.0`: a literal with a fraction is
/// read as a floating-point number, and every `u32` is one exactly, so reading it cannot fail and
/// the document is that number.
#[verifier::external_body]
pub(crate) fn whole_value(number: u32) -> (value: serde_json::Value)
    ensures
        document(value) == Json::Whole(number as nat),
{
    serde_json::from_str(&format!("{}.0", number)).unwrap()
}

/// `serde_json::Value::from(Vec<Value>)`: the document is the list of the items' documents.
#[verifier::external_body]
pub(crate) fn list_value(items: Vec<serde_json::Value>) -> (value: serde_json::Value)
    ensures
        document(value) == Json::List(documents(items@)),
{
    serde_json::Value::from(items)
}

/// `serde_json::Map::new`: an object without members.
#[verifier::external_body]
pub(crate) fn empty_object() -> (object: serde_json::Map<String, serde_json::Value>)
    ensures
        members(object) == no_members(),
{
    serde_json::Map::new()
}

/// `serde_json::Map::insert`: the member `key` becomes `value`, and no other member changes.
#[verifier::external_body]
pub(crate) fn insert_member(
    object: &mut serde_json::Map<String, serde_json::Value>,
    key: &str,
    value: serde_json::Value,
)
    ensures
        members(*final(object)) == members(*old(object)).insert(key@, document(value)),
{
    object.insert(key.to_owned(), value);
}

/// `serde_json::Value::from(Map)`: the document is the object with those members.
#[verifier::external_body]
pub(crate) fn object_value(object: serde_json::Map<String, serde_json::Value>) -> (value:
    serde_json::Value)
    ensures
        document(value) == Json::Object(members(object)),
{
    serde_json::Value::from(object)
}

/// `serde_json::Value::to_string`: the compact text of the document.
#[verifier::external_body]
pub(crate) fn write_compact(value: &serde_json::Value) -> (text: String)
    ensures
        text@ == compact_text(document(*value)),
{
    value.to_string()
}

} // verus!
