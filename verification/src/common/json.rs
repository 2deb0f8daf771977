//! JSON documents: their mathematical model, and the calls into `serde_json`
//! that read, build, parse and print them.

use vstd::prelude::*;
use serde_json::Error as JsonError;
use crate::common::text::opt_str;

verus! {

/// `serde_json::Value`. What a value holds is known through [`json_of`] alone.
#[verifier::external_type_specification]
#[verifier::external_body]
pub struct ExValue(serde_json::Value);

/// A JSON number as `serde_json` holds it.
pub ghost enum JsonNumber {
    /// A whole number that is not negative.
    Unsigned(u64),
    /// A negative whole number.
    Signed(i64),
    /// Any other number, by the bits of its binary form.
    Real(u64),
}

/// A JSON document.
pub ghost enum Json {
    Null,
    Bool(bool),
    Number(JsonNumber),
    String(Seq<char>),
    Array(Seq<Json>),
    Object(Map<Seq<char>, Json>),
}

/// The document that a `serde_json::Value` holds.
pub uninterp spec fn json_of(v: serde_json::Value) -> Json;

/// The document that a text is the JSON notation of; `None` where
/// `serde_json` refuses the text.
pub uninterp spec fn json_parsed(text: Seq<char>) -> Option<Json>;

/// The compact JSON notation that `serde_json` writes for a document, with the
/// members of an object in the order of their keys.
pub uninterp spec fn json_rendered(j: Json) -> Seq<char>;

/// The documents that the values of a sequence hold.
pub open spec fn jsons_of(items: Seq<serde_json::Value>) -> Seq<Json> {
    items.map_values(|v: serde_json::Value| json_of(v))
}

/// The member of an object at `key`: `None` where the document is no object or
/// the object has no such member.
pub open spec fn member_of(j: Json, key: Seq<char>) -> Option<Json> {
    match j {
        Json::Object(m) => if m.contains_key(key) {
            Some(m[key])
        } else {
            None
        },
        _ => None,
    }
}

/// `Clone` of `serde_json::Value`: the copy holds the same document.
pub assume_specification[ <serde_json::Value as Clone>::clone ](v: &serde_json::Value) -> (r:
    serde_json::Value)
    ensures
        json_of(r) == json_of(*v),
;

/// Parses a text. Trusted: `serde_json::from_str` to a `Value`, whose answer
/// depends on the text alone: the document, or an error where the text is not
/// JSON.
#[verifier::external_body]
pub(crate) fn parse_json(text: &str) -> (r: Result<serde_json::Value, JsonError>)
    ensures
        match r {
            Ok(v) => json_parsed(text@) == Some(json_of(v)),
            Err(_) => json_parsed(text@) is None,
        },
{
    serde_json::from_str::<serde_json::Value>(text)
}

/// The document that a sequence of bytes is the JSON notation of; `None` where
/// `serde_json` refuses the bytes.
pub uninterp spec fn json_parsed_bytes(bytes: Seq<u8>) -> Option<Json>;

/// Parses bytes. Trusted: `serde_json::from_slice` to a `Value`, whose answer
/// depends on the bytes alone: the document, or an error where the bytes are
/// not JSON.
#[verifier::external_body]
pub(crate) fn parse_json_slice(bytes: &[u8]) -> (r: Result<serde_json::Value, JsonError>)
    ensures
        match r {
            Ok(v) => json_parsed_bytes(bytes@) == Some(json_of(v)),
            Err(_) => json_parsed_bytes(bytes@) is None,
        },
{
    serde_json::from_slice::<serde_json::Value>(bytes)
}

/// Writes a document as text. Trusted: `Display` of `serde_json::Value`, which
/// writes compact JSON. The value keeps the members of an object in a map
/// ordered by key, so the text depends on the document alone.
#[verifier::external_body]
pub(crate) fn render_json(v: &serde_json::Value) -> (r: String)
    ensures
        r@ == json_rendered(json_of(*v)),
{
    v.to_string()
}

/// An error with the given text. Trusted: `serde::de::Error::custom` of
/// `serde_json::Error`; nothing is claimed of the result.
#[verifier::external_body]
pub(crate) fn json_error(message: &str) -> JsonError {
    <JsonError as serde::de::Error>::custom(message)
}

/// The value `null`. Trusted: the variant `Value::Null`.
#[verifier::external_body]
pub(crate) fn value_null() -> (v: serde_json::Value)
    ensures
        json_of(v) == Json::Null,
{
    serde_json::Value::Null
}

/// A boolean value. Trusted: the variant `Value::Bool`.
#[verifier::external_body]
pub(crate) fn value_bool(b: bool) -> (v: serde_json::Value)
    ensures
        json_of(v) == Json::Bool(b),
{
    serde_json::Value::Bool(b)
}

/// A whole number. Trusted: `Value::from` for `u64`, which makes a number that
/// is not negative.
#[verifier::external_body]
pub(crate) fn value_u64(n: u64) -> (v: serde_json::Value)
    ensures
        json_of(v) == Json::Number(JsonNumber::Unsigned(n)),
{
    serde_json::Value::from(n)
}

/// A string value. Trusted: the variant `Value::String`.
#[verifier::external_body]
pub(crate) fn value_string(s: &str) -> (v: serde_json::Value)
    ensures
        json_of(v) == Json::String(s@),
{
    serde_json::Value::String(s.to_string())
}

/// An array of the given items. Trusted: the variant `Value::Array`.
#[verifier::external_body]
pub(crate) fn value_array(items: Vec<serde_json::Value>) -> (v: serde_json::Value)
    ensures
        json_of(v) == Json::Array(jsons_of(items@)),
{
    serde_json::Value::Array(items)
}

/// An object without members. Trusted: `Value::Object` of `Map::new`.
#[verifier::external_body]
pub(crate) fn value_object() -> (v: serde_json::Value)
    ensures
        json_of(v) == Json::Object(Map::empty()),
{
    serde_json::Value::Object(serde_json::Map::new())
}

/// Sets the member at `key` of an object, and leaves any other value as it is.
/// Trusted: `Map::insert`, which replaces the member where the key is present.
#[verifier::external_body]
pub(crate) fn object_insert(object: &mut serde_json::Value, key: &str, value: serde_json::Value)
    ensures
        json_of(*final(object)) == (match json_of(*old(object)) {
            Json::Object(m) => Json::Object(m.insert(key@, json_of(value))),
            other => other,
        }),
{
    if let serde_json::Value::Object(m) = object {
        m.insert(key.to_string(), value);
    }
}

/// The member of an object at `key`. Trusted: `Value::get` with a string, which
/// gives `None` for a value that is no object and for a missing key.
#[verifier::external_body]
pub(crate) fn value_member<'a>(v: &'a serde_json::Value, key: &str) -> (r: Option<
    &'a serde_json::Value,
>)
    ensures
        match r {
            Some(m) => member_of(json_of(*v), key@) == Some(json_of(*m)),
            None => member_of(json_of(*v), key@) is None,
        },
{
    v.get(key)
}

/// The characters of a string value. Trusted: `Value::as_str`.
#[verifier::external_body]
pub(crate) fn value_as_str<'a>(v: &'a serde_json::Value) -> (r: Option<&'a str>)
    ensures
        match r {
            Some(s) => json_of(*v) == Json::String(s@),
            None => !(json_of(*v) is String),
        },
{
    v.as_str()
}

/// The truth value of a boolean. Trusted: `Value::as_bool`.
#[verifier::external_body]
pub(crate) fn value_as_bool(v: &serde_json::Value) -> (r: Option<bool>)
    ensures
        match r {
            Some(b) => json_of(*v) == Json::Bool(b),
            None => !(json_of(*v) is Bool),
        },
{
    v.as_bool()
}

/// The number of a value that is a whole number and not negative. Trusted:
/// `Value::as_u64`.
#[verifier::external_body]
pub(crate) fn value_as_u64(v: &serde_json::Value) -> (r: Option<u64>)
    ensures
        match r {
            Some(n) => json_of(*v) == Json::Number(JsonNumber::Unsigned(n)),
            None => !(json_of(*v) matches Json::Number(JsonNumber::Unsigned(_))),
        },
{
    v.as_u64()
}

/// Whether a value is `null`. Trusted: `Value::is_null`.
#[verifier::external_body]
pub(crate) fn value_is_null(v: &serde_json::Value) -> (r: bool)
    ensures
        r == (json_of(*v) is Null),
{
    v.is_null()
}

/// Whether a value is an object. Trusted: `Value::is_object`.
#[verifier::external_body]
pub(crate) fn value_is_object(v: &serde_json::Value) -> (r: bool)
    ensures
        r == (json_of(*v) is Object),
{
    v.is_object()
}

/// The items of an array. Trusted: `Value::as_array`.
#[verifier::external_body]
pub(crate) fn value_as_array<'a>(v: &'a serde_json::Value) -> (r: Option<
    &'a Vec<serde_json::Value>,
>)
    ensures
        match r {
            Some(items) => json_of(*v) == Json::Array(jsons_of(items@)),
            None => !(json_of(*v) is Array),
        },
{
    v.as_array()
}

/// The keys of an object, each once. Trusted: `Value::as_object` and
/// `Map::keys`, which walks the members of the map, one per key.
#[verifier::external_body]
pub(crate) fn value_keys(v: &serde_json::Value) -> (r: Option<Vec<String>>)
    ensures
        match r {
            Some(keys) => json_of(*v) matches Json::Object(m) && (forall|k: Seq<char>|
                m.contains_key(k) <==> exists|i: int|
                    0 <= i < keys.len() && (#[trigger] keys[i])@ == k) && (forall|i: int, j: int|
                0 <= i < j < keys.len() ==> (#[trigger] keys[i])@ != (#[trigger] keys[j])@),
            None => !(json_of(*v) is Object),
        },
{
    v.as_object().map(|m| m.keys().cloned().collect())
}

/// What a member that must be a string holds: `None` where it is missing or no
/// string.
pub open spec fn required_string(j: Json, key: Seq<char>) -> Option<Seq<char>> {
    match member_of(j, key) {
        Some(Json::String(s)) => Some(s),
        _ => None,
    }
}

/// What a member that may be missing or `null`, and else must be a string,
/// holds: `None` where it is of another kind.
pub open spec fn optional_string(j: Json, key: Seq<char>) -> Option<Option<Seq<char>>> {
    match member_of(j, key) {
        None => Some(None),
        Some(Json::Null) => Some(None),
        Some(Json::String(s)) => Some(Some(s)),
        _ => None,
    }
}

/// What a member that must be a boolean holds.
pub open spec fn required_bool(j: Json, key: Seq<char>) -> Option<bool> {
    match member_of(j, key) {
        Some(Json::Bool(b)) => Some(b),
        _ => None,
    }
}

/// What a member that must be a whole number from 0 to `u32::MAX` holds.
pub open spec fn required_u32(j: Json, key: Seq<char>) -> Option<u32> {
    match member_of(j, key) {
        Some(Json::Number(JsonNumber::Unsigned(n))) => if n <= u32::MAX {
            Some(n as u32)
        } else {
            None
        },
        _ => None,
    }
}

/// What a member that must be a whole number from 0 to `u64::MAX` holds.
pub open spec fn required_u64(j: Json, key: Seq<char>) -> Option<u64> {
    match member_of(j, key) {
        Some(Json::Number(JsonNumber::Unsigned(n))) => Some(n),
        _ => None,
    }
}

/// What a member that may be missing or `null`, and else must be a whole number
/// from 0 to `u32::MAX`, holds.
pub open spec fn optional_u32(j: Json, key: Seq<char>) -> Option<Option<u32>> {
    match member_of(j, key) {
        None => Some(None),
        Some(Json::Null) => Some(None),
        Some(Json::Number(JsonNumber::Unsigned(n))) => if n <= u32::MAX {
            Some(Some(n as u32))
        } else {
            None
        },
        _ => None,
    }
}

/// What a member that may be missing or `null` holds, whatever its kind.
pub open spec fn optional_value(j: Json, key: Seq<char>) -> Option<Json> {
    match member_of(j, key) {
        None => None,
        Some(Json::Null) => None,
        Some(x) => Some(x),
    }
}

/// The map with a string at `key` where one is given.
pub open spec fn with_string(m: Map<Seq<char>, Json>, key: Seq<char>, o: Option<Seq<char>>) -> Map<
    Seq<char>,
    Json,
> {
    match o {
        Some(s) => m.insert(key, Json::String(s)),
        None => m,
    }
}

/// The map with a number at `key` where one is given.
pub open spec fn with_u32(m: Map<Seq<char>, Json>, key: Seq<char>, o: Option<u32>) -> Map<
    Seq<char>,
    Json,
> {
    match o {
        Some(n) => m.insert(key, Json::Number(JsonNumber::Unsigned(n as u64))),
        None => m,
    }
}

/// The map with a document at `key` where one is given.
pub open spec fn with_json(m: Map<Seq<char>, Json>, key: Seq<char>, o: Option<Json>) -> Map<
    Seq<char>,
    Json,
> {
    match o {
        Some(j) => m.insert(key, j),
        None => m,
    }
}

/// The document of an optional value.
pub open spec fn opt_json(o: Option<serde_json::Value>) -> Option<Json> {
    match o {
        Some(v) => Some(json_of(v)),
        None => None,
    }
}

/// Reads a member that must be a string.
pub fn read_string(v: &serde_json::Value, key: &str) -> (r: Option<String>)
    ensures
        opt_str(r) == required_string(json_of(*v), key@),
{
    match value_member(v, key) {
        Some(m) => match value_as_str(m) {
            Some(s) => Some(String::from_str(s)),
            None => None,
        },
        None => None,
    }
}

/// Reads a member that may be missing or `null`, and else must be a string.
pub fn read_optional_string(v: &serde_json::Value, key: &str) -> (r: Option<Option<String>>)
    ensures
        match r {
            Some(o) => optional_string(json_of(*v), key@) == Some(opt_str(o)),
            None => optional_string(json_of(*v), key@) is None,
        },
{
    match value_member(v, key) {
        Some(m) => {
            if value_is_null(m) {
                Some(None)
            } else {
                match value_as_str(m) {
                    Some(s) => Some(Some(String::from_str(s))),
                    None => None,
                }
            }
        },
        None => Some(None),
    }
}

/// Reads a member that must be a boolean.
pub fn read_bool(v: &serde_json::Value, key: &str) -> (r: Option<bool>)
    ensures
        r == required_bool(json_of(*v), key@),
{
    match value_member(v, key) {
        Some(m) => value_as_bool(m),
        None => None,
    }
}

/// Reads a member that must be a whole number from 0 to `u32::MAX`.
pub fn read_u32(v: &serde_json::Value, key: &str) -> (r: Option<u32>)
    ensures
        r == required_u32(json_of(*v), key@),
{
    match value_member(v, key) {
        Some(m) => match value_as_u64(m) {
            Some(n) => if n <= u32::MAX as u64 {
                Some(n as u32)
            } else {
                None
            },
            None => None,
        },
        None => None,
    }
}

/// Reads a member that must be a whole number from 0 to `u64::MAX`.
pub fn read_u64(v: &serde_json::Value, key: &str) -> (r: Option<u64>)
    ensures
        r == required_u64(json_of(*v), key@),
{
    match value_member(v, key) {
        Some(m) => value_as_u64(m),
        None => None,
    }
}

/// Reads a member that may be missing or `null`, and else must be a whole
/// number from 0 to `u32::MAX`.
pub fn read_optional_u32(v: &serde_json::Value, key: &str) -> (r: Option<Option<u32>>)
    ensures
        r == optional_u32(json_of(*v), key@),
{
    match value_member(v, key) {
        Some(m) => {
            if value_is_null(m) {
                Some(None)
            } else {
                match value_as_u64(m) {
                    Some(n) => if n <= u32::MAX as u64 {
                        Some(Some(n as u32))
                    } else {
                        None
                    },
                    None => None,
                }
            }
        },
        None => Some(None),
    }
}

/// Reads a member of any kind, as a copy.
pub fn read_value(v: &serde_json::Value, key: &str) -> (r: Option<serde_json::Value>)
    ensures
        opt_json(r) == member_of(json_of(*v), key@),
{
    match value_member(v, key) {
        Some(m) => Some(m.clone()),
        None => None,
    }
}

/// Reads a member that may be missing or `null`, as a copy.
pub fn read_optional_value(v: &serde_json::Value, key: &str) -> (r: Option<serde_json::Value>)
    ensures
        opt_json(r) == optional_value(json_of(*v), key@),
{
    match value_member(v, key) {
        Some(m) => {
            if value_is_null(m) {
                None
            } else {
                Some(m.clone())
            }
        },
        None => None,
    }
}

} // verus!

verus! {

/// Sets the member at `key` to a string, where one is given.
pub fn insert_string(object: &mut serde_json::Value, key: &str, value: &Option<String>)
    requires
        json_of(*old(object)) is Object,
    ensures
        json_of(*final(object)) == Json::Object(
            with_string(json_of(*old(object))->Object_0, key@, opt_str(*value)),
        ),
{
    match value {
        Some(s) => {
            object_insert(object, key, value_string(s.as_str()));
        },
        None => {},
    }
}

/// Sets the member at `key` to a number, where one is given.
pub fn insert_u32(object: &mut serde_json::Value, key: &str, value: Option<u32>)
    requires
        json_of(*old(object)) is Object,
    ensures
        json_of(*final(object)) == Json::Object(
            with_u32(json_of(*old(object))->Object_0, key@, value),
        ),
{
    match value {
        Some(n) => {
            object_insert(object, key, value_u64(n as u64));
        },
        None => {},
    }
}

/// Sets the member at `key` to a document, where one is given.
pub fn insert_value(object: &mut serde_json::Value, key: &str, value: Option<serde_json::Value>)
    requires
        json_of(*old(object)) is Object,
    ensures
        json_of(*final(object)) == Json::Object(
            with_json(json_of(*old(object))->Object_0, key@, opt_json(value)),
        ),
{
    match value {
        Some(v) => {
            object_insert(object, key, v);
        },
        None => {},
    }
}

/// Writes a document as compact JSON text.
pub fn to_text(v: &serde_json::Value) -> (r: String)
    ensures
        r@ == json_rendered(json_of(*v)),
{
    render_json(v)
}

/// Reads JSON from bytes: the document, or the error that `serde_json` raises
/// where the bytes are not JSON.
pub fn from_bytes(bytes: &[u8]) -> (r: Result<serde_json::Value, JsonError>)
    ensures
        match r {
            Ok(v) => json_parsed_bytes(bytes@) == Some(json_of(v)),
            Err(_) => json_parsed_bytes(bytes@) is None,
        },
{
    parse_json_slice(bytes)
}

/// Reads a JSON text: the document, or the error that `serde_json` raises where
/// the text is not JSON.
pub fn from_text(text: &str) -> (r: Result<serde_json::Value, JsonError>)
    ensures
        match r {
            Ok(v) => json_parsed(text@) == Some(json_of(v)),
            Err(_) => json_parsed(text@) is None,
        },
{
    parse_json(text)
}

} // verus!
