//! JSON values: the mathematical model that the encoding is stated over, and
//! the operations of `serde_json` that build, read, print and parse them.
//!
//! A `serde_json::Value` is opaque to the verifier. What it holds is named
//! by `json_model`; each operation below is believed to do to that model what
//! its contract says, which is what the source of `serde_json` shows.

use vstd::prelude::*;

verus! {

/// A JSON value as a mathematical object. An object is a map from keys to
/// values: it has no order and no repeated key.
pub enum Json {
    Null,
    Bool(bool),
    /// A number, by its decimal text. Nothing in this library reads it.
    Number(Seq<char>),
    String(Seq<char>),
    Array(Seq<Json>),
    Object(Map<Seq<char>, Json>),
}

#[verifier::external_type_specification]
#[verifier::external_body]
pub struct ExValue(serde_json::Value);

#[verifier::external_type_specification]
#[verifier::external_body]
pub struct ExError(serde_json::Error);

/// What a `serde_json::Value` holds.
pub uninterp spec fn json_model(v: serde_json::Value) -> Json;

/// The text that `serde_json::to_string_pretty` prints for a value.
pub uninterp spec fn pretty_text(j: Json) -> Seq<char>;

/// What `serde_json::from_str` reads from a text: the value, or `None` where
/// the text is not JSON.
pub uninterp spec fn parsed_text(text: Seq<char>) -> Option<Json>;

/// What the values of a list hold, in order.
pub open spec fn json_models(items: Vec<serde_json::Value>) -> Seq<Json> {
    items@.map_values(|v: serde_json::Value| json_model(v))
}

/// The value that an object has under a key; `None` where `j` is no object or
/// has no such key.
pub open spec fn field(j: Json, key: Seq<char>) -> Option<Json> {
    match j {
        Json::Object(fields) => if fields.dom().contains(key) {
            Some(fields[key])
        } else {
            None
        },
        _ => None,
    }
}

/// `serde_json::Value::Null`: the value that holds `null`.
#[verifier::external_body]
pub(crate) fn null_value() -> (v: serde_json::Value)
    ensures
        json_model(v) == Json::Null,
{
    serde_json::Value::Null
}

/// `serde_json::Value::Bool`: the value that holds the given boolean.
#[verifier::external_body]
pub(crate) fn bool_value(b: bool) -> (v: serde_json::Value)
    ensures
        json_model(v) == Json::Bool(b),
{
    serde_json::Value::Bool(b)
}

/// `serde_json::Value::String`: the value that holds a copy of the given
/// string.
#[verifier::external_body]
pub(crate) fn string_value(s: &str) -> (v: serde_json::Value)
    ensures
        json_model(v) == Json::String(s@),
{
    serde_json::Value::String(s.to_owned())
}

/// `serde_json::Value::Array`: the value that holds the given values, in
/// their order.
#[verifier::external_body]
pub(crate) fn array_value(items: Vec<serde_json::Value>) -> (v: serde_json::Value)
    ensures
        json_model(v) == Json::Array(json_models(items)),
{
    serde_json::Value::Array(items)
}

/// `serde_json::Value::Object` of `serde_json::Map::new`: the object without
/// fields.
#[verifier::external_body]
pub(crate) fn empty_object() -> (v: serde_json::Value)
    ensures
        json_model(v) == Json::Object(Map::empty()),
{
    serde_json::Value::Object(serde_json::Map::new())
}

/// Assignment through `IndexMut<&str>` of `serde_json::Value`: on an object it
/// sets the field `key` to `value`, replacing what the key had, and leaves
/// the other fields alone. On an array, a string, a number or a boolean it
/// panics, which `requires` excludes.
#[verifier::external_body]
pub(crate) fn set_field(object: &mut serde_json::Value, key: &str, value: serde_json::Value)
    requires
        json_model(*old(object)) is Object,
    ensures
        json_model(*final(object)) == Json::Object(
            json_model(*old(object))->Object_0.insert(key@, json_model(value)),
        ),
{
    object[key] = value;
}

/// `serde_json::Value::is_null`: whether the value holds `null`.
#[verifier::external_body]
pub(crate) fn is_null(v: &serde_json::Value) -> (b: bool)
    ensures
        b == (json_model(*v) is Null),
{
    v.is_null()
}

/// `serde_json::Value::is_object`: whether the value holds an object.
#[verifier::external_body]
pub(crate) fn is_object(v: &serde_json::Value) -> (b: bool)
    ensures
        b == (json_model(*v) is Object),
{
    v.is_object()
}

/// `serde_json::Value::as_bool`: the boolean that the value holds, `None`
/// where it holds anything else.
#[verifier::external_body]
pub(crate) fn as_bool(v: &serde_json::Value) -> (r: Option<bool>)
    ensures
        match r {
            Some(b) => json_model(*v) == Json::Bool(b),
            None => !(json_model(*v) is Bool),
        },
{
    v.as_bool()
}

/// `serde_json::Value::as_str`: the string that the value holds, `None` where
/// it holds anything else.
#[verifier::external_body]
pub(crate) fn as_str<'a>(v: &'a serde_json::Value) -> (r: Option<&'a str>)
    ensures
        match r {
            Some(s) => json_model(*v) == Json::String(s@),
            None => !(json_model(*v) is String),
        },
{
    v.as_str()
}

/// `serde_json::Value::as_array`: the values that an array holds, in order,
/// `None` where the value is no array.
#[verifier::external_body]
pub(crate) fn as_array<'a>(v: &'a serde_json::Value) -> (r: Option<&'a Vec<serde_json::Value>>)
    ensures
        match r {
            Some(items) => json_model(*v) == Json::Array(json_models(*items)),
            None => !(json_model(*v) is Array),
        },
{
    v.as_array()
}

/// `serde_json::Value::get` with a string as index: the value of the field
/// `key` of an object, `None` where the value is no object or has no such
/// field.
#[verifier::external_body]
pub(crate) fn get_field<'a>(v: &'a serde_json::Value, key: &str) -> (r: Option<
    &'a serde_json::Value,
>)
    ensures
        match r {
            Some(x) => field(json_model(*v), key@) == Some(json_model(*x)),
            None => field(json_model(*v), key@) is None,
        },
{
    v.get(key)
}

/// `serde_json::to_string_pretty` on a `serde_json::Value`. By its
/// documentation the call fails only where the `Serialize` impl of its
/// argument decides to fail or a map has a key that is no string. The impl
/// of `Value` never fails of its own and the keys of its objects are
/// strings, so the contract claims success.
#[verifier::external_body]
pub(crate) fn print_value(v: &serde_json::Value) -> (r: Result<String, serde_json::Error>)
    ensures
        r is Ok,
        r->Ok_0@ == pretty_text(json_model(*v)),
{
    serde_json::to_string_pretty(v)
}

/// `serde_json::from_str` for a `serde_json::Value`: the value that the text
/// denotes, or an error where the text is not JSON.
#[verifier::external_body]
pub(crate) fn parse_value(text: &str) -> (r: Result<serde_json::Value, serde_json::Error>)
    ensures
        match r {
            Ok(v) => parsed_text(text@) == Some(json_model(v)),
            Err(_) => parsed_text(text@) is None,
        },
{
    serde_json::from_str::<serde_json::Value>(text)
}

} // verus!
