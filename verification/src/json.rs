//! The JSON side of the crate: `serde_json`'s types as Verus sees them, and
//! the calls into `serde_json` with what is taken on trust about each.
//!
//! A `serde_json::Value` is opaque to the verifier. What the crate's rules
//! read from one (whether it is an object, and which members it has) is named
//! by the spec functions below, and the contracts of the calls tie the names
//! to what `serde_json` returns.

use serde_json::Value;
use vstd::prelude::*;

verus! {

#[verifier::external_type_specification]
#[verifier::external_body]
pub struct ExValue(serde_json::Value);

#[verifier::external_type_specification]
#[verifier::external_body]
#[verifier::reject_recursive_types(K)]
#[verifier::reject_recursive_types(V)]
pub struct ExObject<K, V>(serde_json::Map<K, V>);

#[verifier::external_type_specification]
#[verifier::external_body]
pub struct ExJsonError(serde_json::Error);

/// The member names of a JSON object.
pub uninterp spec fn object_keys(object: serde_json::Map<String, Value>) -> Set<Seq<char>>;

/// The member names of `value` if it is a JSON object, `None` if it is
/// anything else.
pub uninterp spec fn json_fields(value: Value) -> Option<Set<Seq<char>>>;

/// What `serde_json` makes of `bytes` read as one JSON text: the value, or
/// its error.
pub uninterp spec fn json_parsed(bytes: Seq<u8>) -> Result<Value, serde_json::Error>;

/// `serde_json::Value::as_object` hands out the map of an object and `None`
/// for every other kind of value. Trusted: the map it hands out has the
/// members that `json_fields` names, and `None` comes exactly where
/// `json_fields` is `None`.
pub assume_specification<'a>[ serde_json::Value::as_object ](value: &'a Value) -> (object: Option<
    &'a serde_json::Map<String, Value>,
>)
    ensures
        match object {
            Some(members) => json_fields(*value) == Some(object_keys(*members)),
            None => json_fields(*value) is None,
        },
;

/// `serde_json::Map::contains_key`, asked for a string key. Trusted: it
/// answers whether `key` is one of the object's member names.
#[verifier::external_body]
pub(crate) fn has_member(object: &serde_json::Map<String, Value>, key: &str) -> (present: bool)
    ensures
        present == object_keys(*object).contains(key@),
{
    object.contains_key(key)
}

/// `serde_json::from_slice`, asked for a `Value`. Trusted: the outcome depends
/// on the bytes alone, so it is the one that `json_parsed` names.
#[verifier::external_body]
pub(crate) fn parse(bytes: &[u8]) -> (parsed: Result<Value, serde_json::Error>)
    ensures
        parsed == json_parsed(bytes@),
{
    serde_json::from_slice::<Value>(bytes)
}

} // verus!
