//! What a reply means: which status codes count as success, what a refusal
//! is reported as, and when the body is read.

use crate::error::{Failure, WebdockError};
use crate::http::{render_status, status_line};
use crate::request::Payload;
use crate::text::{decimal, decimal_string};
use serde_json::Value;
use vstd::prelude::*;
use vstd::string::StringExecFns;

verus! {

/// The status codes that the service uses for success. 418 is one of them:
/// the service answers a ping with it.
pub open spec fn is_success(status: u16) -> bool {
    status == 200 || status == 201 || status == 202 || status == 418
}

/// Whether the body of a reply with the status code `status` is read, where
/// `json` says whether a JSON body is expected: only a success has a body
/// worth reading, and only where one is expected.
pub open spec fn body_is_read(status: u16, json: bool) -> bool {
    is_success(status) && json
}

/// The status text of `code`: as `reqwest` writes it where `code` is a status
/// code at all, and of the same shape where it is not.
pub open spec fn status_text(code: u16) -> Seq<char> {
    if 100 <= code <= 999 {
        status_line(code)
    } else {
        decimal(code as nat) + " <unknown status code>"@
    }
}

/// The message of a service error: the code, then the status text.
pub open spec fn service_message(code: u16, text: Seq<char>) -> Seq<char> {
    decimal(code as nat) + " Error: "@ + text
}

/// What a reply with the status code `status` amounts to, where `json` says
/// whether a JSON body is expected and `parsed` is what its body reads as.
/// The body counts only where it is read.
pub open spec fn reply(status: u16, json: bool, parsed: Result<Value, serde_json::Error>) -> Result<
    Payload,
    Failure,
> {
    if !is_success(status) {
        Err(Failure::Service(status, service_message(status, status_text(status))))
    } else if body_is_read(status, json) {
        match parsed {
            Ok(value) => Ok(Payload::Json(value)),
            Err(cause) => Err(Failure::Decode(cause)),
        }
    } else {
        Ok(Payload::Empty)
    }
}

/// The outcome of interpreting a reply, with the messages of an error as
/// sequences of characters.
pub open spec fn reply_view(outcome: Result<Payload, WebdockError>) -> Result<Payload, Failure> {
    match outcome {
        Ok(payload) => Ok(payload),
        Err(error) => Err(error@),
    }
}

/// Whether `status` is one of the status codes that count as success.
pub fn is_success_code(status: u16) -> (success: bool)
    ensures
        success == is_success(status),
{
    status == 200 || status == 201 || status == 202 || status == 418
}

/// Whether the body of a reply with the status code `status` is to be read,
/// where `json` says whether a JSON body is expected.
pub fn reads_body(status: u16, json: bool) -> (read: bool)
    ensures
        read == body_is_read(status, json),
        read == (is_success(status) && json),
{
    json && is_success_code(status)
}

/// The status text of `code`.
pub fn describe_status(code: u16) -> (text: String)
    ensures
        text@ == status_text(code),
{
    match render_status(code) {
        Some(line) => line,
        None => {
            let mut text = decimal_string(code);
            text.append(" <unknown status code>");
            text
        },
    }
}

/// The error for a reply that was refused with `code`, whose status text is
/// `text`.
pub fn service_error(code: u16, text: &str) -> (error: WebdockError)
    ensures
        error@ == Failure::Service(code, service_message(code, text@)),
{
    let mut message = decimal_string(code);
    message.append(" Error: ");
    message.append(text);
    WebdockError::WebdockException(code, message)
}

/// The outcome of a successful reply whose body was read as JSON, given what
/// the reading gave.
pub fn decoded(parsed: Result<Value, serde_json::Error>) -> (outcome: Result<Payload, WebdockError>)
    ensures
        reply_view(outcome) == match parsed {
            Ok(value) => Ok::<Payload, Failure>(Payload::Json(value)),
            Err(cause) => Err(Failure::Decode(cause)),
        },
{
    match parsed {
        Ok(value) => Ok(Payload::Json(value)),
        Err(cause) => Err(WebdockError::DecodeException(cause)),
    }
}

} // verus!
