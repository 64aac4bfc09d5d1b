//! The JSON documents that `serde_json` parses, seen through a mathematical
//! model, and the few `serde_json` calls the decoder is built on.

use vstd::prelude::*;

verus! {

/// What a `serde_json::Value` holds.
///
/// Numbers are told apart only as far as the decoder reads them: one held as
/// an unsigned integer carries its value, any other (negative or floating) is
/// `OtherNumber`.
pub enum JsonModel {
    Null,
    Bool(bool),
    Unsigned(u64),
    OtherNumber,
    Text(Seq<char>),
    Array(Seq<JsonModel>),
    Object(Map<Seq<char>, JsonModel>),
}

/// `serde_json::Value`, taken as it is: what it holds is told by
/// `json_model` alone.
#[verifier::external_type_specification]
#[verifier::external_body]
pub struct ExValue(serde_json::Value);

/// `serde_json::Error`, carried from the parser to where it is turned into
/// an error of this library.
#[verifier::external_type_specification]
#[verifier::external_body]
pub struct ExJsonError(serde_json::Error);

/// The document that a `serde_json::Value` holds.
pub uninterp spec fn json_model(value: serde_json::Value) -> JsonModel;

/// The document that `serde_json::from_slice` reads from `bytes`, or `None`
/// where it reports an error.
pub uninterp spec fn parsed_json(bytes: Seq<u8>) -> Option<JsonModel>;

/// `serde_json::from_slice::<serde_json::Value>`: parsing is a function of
/// the bytes alone, and it either yields a value or an error.
#[verifier::external_body]
pub(crate) fn parse(bytes: &[u8]) -> (parsed: Result<serde_json::Value, serde_json::Error>)
    ensures
        match parsed {
            Ok(value) => parsed_json(bytes@) == Some(json_model(value)),
            Err(_) => parsed_json(bytes@) is None,
        },
{
    serde_json::from_slice::<serde_json::Value>(bytes)
}

/// `serde_json::Value::get` with a string index: the member of an object
/// under `key`, and `None` for a missing key or a value that is no object.
#[verifier::external_body]
pub(crate) fn member<'a>(value: &'a serde_json::Value, key: &str) -> (found: Option<&'a serde_json::Value>)
    ensures
        match found {
            Some(inner) => json_model(*value) matches JsonModel::Object(members)
                && members.contains_key(key@) && json_model(*inner) == members[key@],
            None => !(json_model(*value) matches JsonModel::Object(members)
                && members.contains_key(key@)),
        },
{
    value.get(key)
}

/// `serde_json::Value::as_array`: the elements of an array, in order, and
/// `None` for any other value.
#[verifier::external_body]
pub(crate) fn elements<'a>(value: &'a serde_json::Value) -> (found: Option<&'a Vec<serde_json::Value>>)
    ensures
        match found {
            Some(items) => json_model(*value) matches JsonModel::Array(models)
                && models == items@.map_values(|item: serde_json::Value| json_model(item)),
            None => !(json_model(*value) is Array),
        },
{
    value.as_array()
}

/// `serde_json::Value::as_u64`: the value of a number held as an unsigned
/// integer, and `None` for any other value.
#[verifier::external_body]
pub(crate) fn unsigned(value: &serde_json::Value) -> (found: Option<u64>)
    ensures
        found == match json_model(*value) {
            JsonModel::Unsigned(n) => Some(n),
            _ => None::<u64>,
        },
{
    value.as_u64()
}

} // verus!
