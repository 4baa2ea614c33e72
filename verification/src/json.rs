//! JSON documents, read with `serde_json`.

use vstd::prelude::*;

verus! {

/// What a JSON value holds.
pub ghost enum Json {
    Null,
    Bool(bool),
    /// A number; the field is its value where `serde_json` holds the number
    /// as a whole number from 0 to `u64::MAX`.
    Number(Option<u64>),
    Text(Seq<char>),
    Array(Seq<Json>),
    Object(Map<Seq<char>, Json>),
}

/// The member `key` of an object; `Null` where `j` is no object or has no
/// such member.
pub open spec fn member_of(j: Json, key: Seq<char>) -> Json {
    match j {
        Json::Object(members) => if members.contains_key(key) {
            members[key]
        } else {
            Json::Null
        },
        _ => Json::Null,
    }
}

/// The boolean that a JSON value is.
pub open spec fn bool_of(j: Json) -> Option<bool> {
    match j {
        Json::Bool(b) => Some(b),
        _ => None,
    }
}

/// The number that a JSON value is, where it is held as a whole number
/// from 0 to `u64::MAX`.
pub open spec fn u64_of(j: Json) -> Option<u64> {
    match j {
        Json::Number(n) => n,
        _ => None,
    }
}

/// The text that a JSON value is.
pub open spec fn text_of(j: Json) -> Option<Seq<char>> {
    match j {
        Json::Text(s) => Some(s),
        _ => None,
    }
}

/// The items of the array that a JSON value is, in their order.
pub open spec fn items_of(j: Json) -> Option<Seq<Json>> {
    match j {
        Json::Array(items) => Some(items),
        _ => None,
    }
}

/// `serde_json::Value`, a JSON value. Nothing is known of what is inside
/// one but what `json_of` says.
#[verifier::external_type_specification]
#[verifier::external_body]
pub struct ExValue(serde_json::Value);

/// `serde_json::Error`, the reason why a text could not be read. Nothing is
/// known of what is inside one.
#[verifier::external_type_specification]
#[verifier::external_body]
pub struct ExError(serde_json::Error);

/// What a `serde_json::Value` holds.
pub uninterp spec fn json_of(v: serde_json::Value) -> Json;

/// What `serde_json` reads from a text: the value that the text denotes, or
/// nothing where the text is no JSON document.
pub uninterp spec fn json_document(text: Seq<char>) -> Option<Json>;

/// `serde_json::from_str` for a `Value`: it reads the whole text as one JSON
/// document and fails where the text is none. What it gives depends on the
/// text alone.
#[verifier::external_body]
pub(crate) fn parse_json(text: &str) -> (r: Result<serde_json::Value, serde_json::Error>)
    ensures
        match r {
            Ok(v) => json_document(text@) == Some(json_of(v)),
            Err(_) => json_document(text@) is None,
        },
{
    serde_json::from_str::<serde_json::Value>(text)
}

/// Indexing of a `serde_json::Value` by a string: the member of that name,
/// or a null value where the value is no object or has no such member.
#[verifier::external_body]
pub(crate) fn member<'a>(v: &'a serde_json::Value, key: &str) -> (r: &'a serde_json::Value)
    ensures
        json_of(*r) == member_of(json_of(*v), key@),
{
    &v[key]
}

/// `Value::as_bool` gives the boolean that the value is, and nothing for any
/// other value.
pub assume_specification[ serde_json::Value::as_bool ](v: &serde_json::Value) -> (r: Option<bool>)
    ensures
        r == bool_of(json_of(*v)),
;

/// `Value::as_u64` gives the number that the value is where it is held as
/// a whole number from 0 to `u64::MAX`, and nothing for any other value.
pub assume_specification[ serde_json::Value::as_u64 ](v: &serde_json::Value) -> (r: Option<u64>)
    ensures
        r == u64_of(json_of(*v)),
;

/// `Value::as_str` gives the text that the value is, and nothing for any
/// other value.
pub assume_specification<'a>[ serde_json::Value::as_str ](v: &'a serde_json::Value) -> (r: Option<
    &'a str,
>)
    ensures
        match r {
            Some(s) => text_of(json_of(*v)) == Some(s@),
            None => text_of(json_of(*v)) is None,
        },
;

/// `Value::as_array` gives the items of the array that the value is, in
/// their order, and nothing for any other value.
pub assume_specification<'a>[ serde_json::Value::as_array ](v: &'a serde_json::Value) -> (r: Option<
    &'a Vec<serde_json::Value>,
>)
    ensures
        match r {
            Some(items) => items_of(json_of(*v)) == Some(
                items@.map_values(|item: serde_json::Value| json_of(item)),
            ),
            None => items_of(json_of(*v)) is None,
        },
;

} // verus!
