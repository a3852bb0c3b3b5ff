//! JSON values as the rule engine sees them.
//!
//! Decoding, encoding and the object container are `serde_json`'s. This
//! module gives them a mathematical model and states, for each operation
//! the engine calls, what it does to that model. None of these statements
//! is proved here: they describe `serde_json` (built with `preserve_order`,
//! so that an object keeps its members in insertion order).

use vstd::prelude::*;
use vstd::utf8::{decode_utf8, valid_utf8};
use crate::assoc::{lookup, with_entry, without_key, Name};

verus! {

/// The content of a JSON value.
pub enum JsonModel {
    Null,
    Truth(bool),
    /// A number that is held as an integer.
    Integer(int),
    /// A number that is held as a double, by its bit pattern.
    Real(u64),
    Text(Seq<char>),
    List(Seq<JsonModel>),
    /// An object: its members in order, no two under the same name.
    Object(Seq<(Name, JsonModel)>),
}

/// The members of an object, in order.
pub type Members = Seq<(Name, JsonModel)>;

/// `serde_json::Value`, carried through as an opaque value.
#[verifier::external_type_specification]
#[verifier::external_body]
pub struct ExValue(serde_json::Value);

/// `serde_json::Map`, the container of an object's members.
#[verifier::external_type_specification]
#[verifier::external_body]
#[verifier::reject_recursive_types(K)]
#[verifier::reject_recursive_types(V)]
pub struct ExObject<K, V>(serde_json::Map<K, V>);

/// `serde_json::Error`, what decoding and encoding fail with.
#[verifier::external_type_specification]
#[verifier::external_body]
pub struct ExJsonError(serde_json::Error);

/// What a `serde_json::Value` holds.
pub uninterp spec fn value_model(v: serde_json::Value) -> JsonModel;

/// What a `serde_json::Map` holds: its members in iteration order.
pub uninterp spec fn object_members(m: serde_json::Map<String, serde_json::Value>) -> Members;

/// What `serde_json::from_str` makes of a text: the value it decodes to,
/// or nothing where it reports an error.
pub uninterp spec fn json_parse(text: Seq<char>) -> Option<JsonModel>;

/// The compact text that `serde_json::to_string` writes for a value.
pub uninterp spec fn json_text(doc: JsonModel) -> Seq<char>;

/// A value that a rule writes into an object.
pub enum JsonConstant {
    Text(String),
    Flag(bool),
    Count(usize),
}

impl JsonConstant {
    /// The JSON value that the constant stands for.
    pub open spec fn model(self) -> JsonModel {
        match self {
            JsonConstant::Text(s) => JsonModel::Text(s@),
            JsonConstant::Flag(b) => JsonModel::Truth(b),
            JsonConstant::Count(n) => JsonModel::Integer(n as int),
        }
    }
}

/// `String::from_utf8`: the decoded text where the bytes are well-formed
/// UTF-8, nothing otherwise.
#[verifier::external_body]
pub(crate) fn decode_text(bytes: Vec<u8>) -> (r: Option<String>)
    ensures
        valid_utf8(bytes@) ==> r is Some && r.unwrap()@ == decode_utf8(bytes@),
        !valid_utf8(bytes@) ==> r is None,
{
    match String::from_utf8(bytes) {
        Ok(s) => Some(s),
        Err(_) => None,
    }
}

/// `serde_json::from_str` at type `Value`: succeeds exactly on the texts
/// that `json_parse` decodes, with that value.
#[verifier::external_body]
pub(crate) fn parse_value(text: &str) -> (r: Result<serde_json::Value, serde_json::Error>)
    ensures
        match json_parse(text@) {
            Some(doc) => r is Ok && value_model(r.unwrap()) == doc,
            None => r is Err,
        },
{
    serde_json::from_str::<serde_json::Value>(text)
}

/// `serde_json::to_string` on a `Value`: the compact text of the value.
/// Writing a `Value` into memory has no failing step (every member name is
/// a string, every number finite), so the call returns `Ok`.
#[verifier::external_body]
pub(crate) fn render_value(v: &serde_json::Value) -> (r: Result<String, serde_json::Error>)
    ensures
        r is Ok,
        r.unwrap()@ == json_text(value_model(*v)),
{
    serde_json::to_string(v)
}

/// Tells an object from every other value: the variant `Value::Object`
/// gives up its map, any other value comes back as it is.
#[verifier::external_body]
pub(crate) fn into_object(v: serde_json::Value) -> (r: Result<
    serde_json::Map<String, serde_json::Value>,
    serde_json::Value,
>)
    ensures
        match value_model(v) {
            JsonModel::Object(ms) => r is Ok && object_members(r.unwrap()) == ms,
            _ => r is Err && r.unwrap_err() == v,
        },
{
    match v {
        serde_json::Value::Object(m) => Ok(m),
        other => Err(other),
    }
}

/// `Value::Object`: the object value that holds the members of the map.
#[verifier::external_body]
pub(crate) fn from_object(m: serde_json::Map<String, serde_json::Value>) -> (r: serde_json::Value)
    ensures
        value_model(r) == JsonModel::Object(object_members(m)),
{
    serde_json::Value::Object(m)
}

/// `Map::get`: the value of the member called `key`, if there is one.
#[verifier::external_body]
pub(crate) fn member<'a>(m: &'a serde_json::Map<String, serde_json::Value>, key: &str) -> (r:
    Option<&'a serde_json::Value>)
    ensures
        match lookup(object_members(*m), key@) {
            Some(v) => r is Some && value_model(*r.unwrap()) == v,
            None => r is None,
        },
{
    m.get(key)
}

/// `Map::insert`: a member of that name keeps its place and takes the new
/// value; otherwise the new member goes last.
#[verifier::external_body]
pub(crate) fn put_member(
    m: &mut serde_json::Map<String, serde_json::Value>,
    key: String,
    value: serde_json::Value,
)
    ensures
        object_members(*final(m)) == with_entry(object_members(*old(m)), key@, value_model(value)),
{
    m.insert(key, value);
}

/// `Map::shift_remove`: the member called `key` leaves, the others keep
/// their order.
#[verifier::external_body]
pub(crate) fn drop_member(m: &mut serde_json::Map<String, serde_json::Value>, key: &str)
    ensures
        object_members(*final(m)) == without_key(object_members(*old(m)), key@),
{
    m.shift_remove(key);
}

/// `Value::as_str`: the text of a string value, nothing for any other.
#[verifier::external_body]
pub(crate) fn text_of<'a>(v: &'a serde_json::Value) -> (r: Option<&'a str>)
    ensures
        match value_model(*v) {
            JsonModel::Text(t) => r is Some && r.unwrap()@ == t,
            _ => r is None,
        },
{
    v.as_str()
}

/// `Value::as_array`: the items of an array value, one for one and in
/// order, nothing for any other value.
#[verifier::external_body]
pub(crate) fn items_of<'a>(v: &'a serde_json::Value) -> (r: Option<&'a Vec<serde_json::Value>>)
    ensures
        match value_model(*v) {
            JsonModel::List(items) => {
                &&& r is Some
                &&& r.unwrap()@.len() == items.len()
                &&& forall|i: int|
                    0 <= i < items.len() ==> value_model(#[trigger] r.unwrap()@[i]) == items[i]
            },
            _ => r is None,
        },
{
    v.as_array()
}

/// `Value::from` on a string, a boolean or an unsigned integer: the JSON
/// string, boolean or integer number of that content.
#[verifier::external_body]
pub(crate) fn constant_value(c: &JsonConstant) -> (r: serde_json::Value)
    ensures
        value_model(r) == c.model(),
{
    match c {
        JsonConstant::Text(s) => serde_json::Value::from(s.clone()),
        JsonConstant::Flag(b) => serde_json::Value::from(*b),
        JsonConstant::Count(n) => serde_json::Value::from(*n),
    }
}

} // verus!
