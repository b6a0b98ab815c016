//! What holds of the client's rules whatever the input: statements that
//! relate the planning of requests and the reading of replies, each proved
//! from the definitions that the contracts of the functions use.

use crate::client::{resource_url, BASE_URL};
use crate::endpoints::standard_endpoints;
use crate::error::Failure;
use crate::provision::{
    first_missing, invalid_data_message, missing_field_message, provisioned, required_fields,
};
use crate::request::{planned, unsupported_verb_message, verbs_differ, Method, Payload, Plan};
use crate::response::{body_is_read, is_success, reply, service_message, status_text};
use serde_json::Value;
use vstd::prelude::*;

verus! {

/// Whether `verb` is one of the four verbs that the client knows.
pub open spec fn is_known_verb(verb: Seq<char>) -> bool {
    verb == "GET"@ || verb == "POST"@ || verb == "PATCH"@ || verb == "DELETE"@
}

/// A request for a resource of the endpoint table goes to the base URL, a
/// slash, and the path segment that the table gives for the resource,
/// whichever of the four verbs asks for it.
pub proof fn request_goes_to_the_resource(name: Seq<char>, verb: Seq<char>, body: Option<Value>)
    requires
        standard_endpoints().contains_key(name),
        is_known_verb(verb),
    ensures
        planned(BASE_URL@, standard_endpoints()[name], verb, body) matches Ok(plan) && plan.url
            == BASE_URL@ + "/"@ + standard_endpoints()[name],
{
}

/// Each of the four verbs gives a request that goes out as the HTTP method of
/// the same name, to the base URL, a slash and the path segment. `POST` and
/// `PATCH` carry the body that was handed in; `GET` and `DELETE` carry none.
pub proof fn each_verb_goes_out_as_itself(base: Seq<char>, path: Seq<char>, body: Option<Value>)
    ensures
        planned(base, path, "GET"@, body) == Ok::<Plan, Failure>(
            Plan { url: base + "/"@ + path, method: Method::Get, body: None, decode: true },
        ),
        planned(base, path, "POST"@, body) == Ok::<Plan, Failure>(
            Plan { url: base + "/"@ + path, method: Method::Post, body, decode: true },
        ),
        planned(base, path, "PATCH"@, body) == Ok::<Plan, Failure>(
            Plan { url: base + "/"@ + path, method: Method::Patch, body, decode: true },
        ),
        planned(base, path, "DELETE"@, body) == Ok::<Plan, Failure>(
            Plan { url: base + "/"@ + path, method: Method::Delete, body: None, decode: false },
        ),
{
    verbs_differ();
}

/// The four success codes are 200, 201, 202 and 418. A reply with any other
/// code is a service error that holds that code, whatever its body. A reply
/// with one of the four is never a service error, and it is a success
/// wherever no JSON body is expected or the body reads as JSON.
pub proof fn status_code_decides(status: u16, json: bool, parsed: Result<Value, serde_json::Error>)
    ensures
        is_success(status) <==> status == 200 || status == 201 || status == 202 || status == 418,
        !is_success(status) ==> reply(status, json, parsed) == Err::<Payload, Failure>(
            Failure::Service(status, service_message(status, status_text(status))),
        ),
        is_success(status) ==> !(reply(status, json, parsed) matches Err(Failure::Service(_, _))),
        is_success(status) && (!json || parsed is Ok) ==> reply(status, json, parsed) is Ok,
        is_success(status) && json ==> (reply(status, json, parsed) matches Ok(Payload::Json(value))
            ==> parsed == Ok::<Value, serde_json::Error>(value)),
{
}

/// Where one of `fields` is not among `present`, the first such field is
/// found, and it is one of `fields` that `present` lacks. Where all are
/// there, nothing is found.
pub proof fn first_missing_finds(present: Set<Seq<char>>, fields: Seq<Seq<char>>)
    ensures
        first_missing(present, fields) is None <==> forall|i: int|
            0 <= i < fields.len() ==> present.contains(#[trigger] fields[i]),
        first_missing(present, fields) matches Some(field) ==> fields.contains(field)
            && !present.contains(field),
    decreases fields.len(),
{
    if fields.len() > 0 {
        let rest = fields.drop_first();
        first_missing_finds(present, rest);
        if present.contains(fields[0]) {
            if first_missing(present, rest) is Some {
                let field = first_missing(present, rest)->0;
                let i = choose|i: int| 0 <= i < rest.len() && rest[i] == field;
                assert(fields[i + 1] == field);
            } else {
                assert forall|i: int| 0 <= i < fields.len() implies present.contains(
                    #[trigger] fields[i],
                ) by {
                    if i > 0 {
                        assert(rest[i - 1] == fields[i]);
                    }
                }
            }
        }
    }
}

/// Data that is a JSON object but lacks one of the required members is
/// refused with a validation error, and the error names a required member
/// that the data lacks. So nothing is sent for it.
pub proof fn incomplete_data_is_refused(
    url: Seq<char>,
    data: Value,
    present: Set<Seq<char>>,
    lacking: Seq<char>,
)
    requires
        required_fields().contains(lacking),
        !present.contains(lacking),
    ensures
        provisioned(url, data, Some(present)) matches Err(Failure::Validation(message)) && exists|
            field: Seq<char>,
        |
            required_fields().contains(field) && !present.contains(field) && message
                == missing_field_message(field),
{
    first_missing_finds(present, required_fields());
    let field = first_missing(present, required_fields())->0;
    assert(required_fields().contains(field) && !present.contains(field));
}

/// Data that is no JSON object is refused with a validation error.
pub proof fn shapeless_data_is_refused(url: Seq<char>, data: Value)
    ensures
        provisioned(url, data, None) == Err::<Plan, Failure>(
            Failure::Validation(invalid_data_message()),
        ),
{
}

/// Data that is a JSON object with all five required members gives one
/// request: a `POST` to the servers resource, whose body is the data as it
/// was handed in.
pub proof fn complete_data_is_posted(data: Value, present: Set<Seq<char>>)
    requires
        present.contains("name"@),
        present.contains("slug"@),
        present.contains("locationId"@),
        present.contains("profileSlug"@),
        present.contains("imageSlug"@),
    ensures
        provisioned(resource_url("servers"@), data, Some(present)) == Ok::<Plan, Failure>(
            Plan {
                url: BASE_URL@ + "/"@ + standard_endpoints()["servers"@],
                method: Method::Post,
                body: Some(data),
                decode: true,
            },
        ),
{
    first_missing_finds(present, required_fields());
}

/// A verb that is none of `GET`, `POST`, `PATCH` and `DELETE` is refused with
/// a validation error whose message ends in the verb, whatever the resource
/// and the body. So nothing is sent for it.
pub proof fn unknown_verb_is_refused(
    base: Seq<char>,
    path: Seq<char>,
    verb: Seq<char>,
    body: Option<Value>,
)
    requires
        !is_known_verb(verb),
    ensures
        planned(base, path, verb, body) == Err::<Plan, Failure>(
            Failure::Validation(unsupported_verb_message(verb)),
        ),
        unsupported_verb_message(verb).subrange(
            unsupported_verb_message(verb).len() - verb.len(),
            unsupported_verb_message(verb).len() as int,
        ) == verb,
{
    let message = unsupported_verb_message(verb);
    assert(message.subrange(message.len() - verb.len(), message.len() as int) =~= verb);
}

/// The request that a `DELETE` gives carries no body and asks that the body
/// of the reply be left unread; and a reply whose body is left unread means
/// the same whatever that body is: a success without a value where the
/// status code is a success.
pub proof fn delete_leaves_the_body_unread(
    base: Seq<char>,
    path: Seq<char>,
    body: Option<Value>,
    status: u16,
    one: Result<Value, serde_json::Error>,
    other: Result<Value, serde_json::Error>,
)
    ensures
        planned(base, path, "DELETE"@, body) == Ok::<Plan, Failure>(
            Plan { url: base + "/"@ + path, method: Method::Delete, body: None, decode: false },
        ),
        reply(status, false, one) == reply(status, false, other),
        is_success(status) ==> reply(status, false, one) == Ok::<Payload, Failure>(Payload::Empty),
{
    verbs_differ();
}

/// The body of a reply is read exactly where the status code is a success
/// and a JSON body is expected. Where it is not read, the reply means the
/// same whatever the body is.
pub proof fn unread_body_does_not_count(
    status: u16,
    json: bool,
    one: Result<Value, serde_json::Error>,
    other: Result<Value, serde_json::Error>,
)
    ensures
        body_is_read(status, json) <==> is_success(status) && json,
        !body_is_read(status, json) ==> reply(status, json, one) == reply(status, json, other),
{
}

} // verus!
