//! The rule that a request to provision a server must meet before it is sent:
//! the data is a JSON object, and it names everything that a server needs.

use crate::error::{Failure, WebdockError};
use crate::json::{has_member, json_fields, object_keys};
use crate::request::{Method, Plan};
use serde_json::Value;
use vstd::prelude::*;
use vstd::string::StringExecFns;

verus! {

/// The members that the data for a new server must have, in the order in
/// which they are looked for.
pub open spec fn required_fields() -> Seq<Seq<char>> {
    seq!["name"@, "slug"@, "locationId"@, "profileSlug"@, "imageSlug"@]
}

/// The first of `fields` that is not among `present`, if there is one.
pub open spec fn first_missing(present: Set<Seq<char>>, fields: Seq<Seq<char>>) -> Option<Seq<char>>
    decreases fields.len(),
{
    if fields.len() == 0 {
        None
    } else if !present.contains(fields[0]) {
        Some(fields[0])
    } else {
        first_missing(present, fields.drop_first())
    }
}

/// The message for data that is no JSON object.
pub open spec fn invalid_data_message() -> Seq<char> {
    "Invalid data format"@
}

/// The message for data that lacks the member `field`.
pub open spec fn missing_field_message(field: Seq<char>) -> Seq<char> {
    "Required field "@ + field + " is missing."@
}

/// What becomes of a request to provision a server from `data`, where
/// `fields` is what `data` holds: `None` if it is no JSON object, its member
/// names if it is one. Data that passes is sent unchanged, by `POST`, to
/// `url`.
pub open spec fn provisioned(url: Seq<char>, data: Value, fields: Option<Set<Seq<char>>>) -> Result<
    Plan,
    Failure,
> {
    match fields {
        None => Err(Failure::Validation(invalid_data_message())),
        Some(present) => match first_missing(present, required_fields()) {
            Some(field) => Err(Failure::Validation(missing_field_message(field))),
            None => Ok(Plan { url, method: Method::Post, body: Some(data), decode: true }),
        },
    }
}

/// The texts of a list of string slices.
pub open spec fn texts(fields: Seq<&'static str>) -> Seq<Seq<char>> {
    fields.map_values(|field: &'static str| field@)
}

/// The error for data that is no JSON object.
pub fn invalid_data() -> (error: WebdockError)
    ensures
        error@ == Failure::Validation(invalid_data_message()),
{
    WebdockError::ValidationException(String::from_str("Invalid data format"))
}

/// The error for data that lacks the member `field`.
pub fn missing_field(field: &str) -> (error: WebdockError)
    ensures
        error@ == Failure::Validation(missing_field_message(field@)),
{
    let mut message = String::from_str("Required field ");
    message.append(field);
    message.append(" is missing.");
    WebdockError::ValidationException(message)
}

/// The first of `fields` that `object` has no member for, if there is one.
pub fn find_missing(object: &serde_json::Map<String, Value>, fields: &[&'static str]) -> (missing:
    Option<&'static str>)
    ensures
        match missing {
            Some(field) => first_missing(object_keys(*object), texts(fields@)) == Some(field@),
            None => first_missing(object_keys(*object), texts(fields@)) is None,
        },
{
    let mut i: usize = 0;
    proof {
        assert(texts(fields@).skip(0) =~= texts(fields@));
    }
    while i < fields.len()
        invariant
            i <= fields.len(),
            first_missing(object_keys(*object), texts(fields@)) == first_missing(
                object_keys(*object),
                texts(fields@).skip(i as int),
            ),
        decreases fields.len() - i,
    {
        proof {
            let rest = texts(fields@).skip(i as int);
            assert(rest[0] == fields@[i as int]@);
            assert(rest.drop_first() =~= texts(fields@).skip(i + 1));
        }
        if !has_member(object, fields[i]) {
            return Some(fields[i]);
        }
        i += 1;
    }
    None
}

} // verus!
