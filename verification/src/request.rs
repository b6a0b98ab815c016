//! What the crate hands to whoever carries a request, and what it hands back
//! for a reply.

use crate::error::{Failure, WebdockError};
use serde_json::Value;
use vstd::prelude::*;
use vstd::string::StringExecFns;

verus! {

/// The HTTP method that a request goes out with.
#[derive(Clone, Copy, Debug, PartialEq, Eq, Structural)]
pub enum Method {
    Get,
    Post,
    Patch,
    Delete,
}

/// One request, ready to be sent.
#[derive(Debug)]
pub struct Request<'a> {
    /// Where it goes.
    pub url: String,
    /// The method it goes out with.
    pub method: Method,
    /// The value to send as the JSON body, if it has one.
    pub body: Option<&'a Value>,
    /// Whether the body of a successful reply is to be read as JSON.
    pub decode: bool,
}

/// A [`Request`] with its URL as a sequence of characters.
pub struct Plan {
    pub url: Seq<char>,
    pub method: Method,
    pub body: Option<Value>,
    pub decode: bool,
}

impl<'a> View for Request<'a> {
    type V = Plan;

    open spec fn view(&self) -> Plan {
        Plan {
            url: self.url@,
            method: self.method,
            body: body_view(self.body),
            decode: self.decode,
        }
    }
}

/// What a successful reply amounts to.
#[derive(Debug)]
pub enum Payload {
    /// The value that the body of the reply holds.
    Json(Value),
    /// Success, and nothing read from the body.
    Empty,
}

/// The request that the verb `verb` asks for on the path segment `path` under
/// `base`, or the refusal of a verb that is none of the four.
///
/// Each verb goes out as the HTTP method of its name. `GET` and `DELETE`
/// carry no body, whatever `body` is; `POST` and `PATCH` carry `body`. Only
/// after a `DELETE` is the body of the reply left unread.
pub open spec fn planned(base: Seq<char>, path: Seq<char>, verb: Seq<char>, body: Option<Value>) -> Result<
    Plan,
    Failure,
> {
    let url = base + "/"@ + path;
    if verb == "GET"@ {
        Ok(Plan { url, method: Method::Get, body: None, decode: true })
    } else if verb == "POST"@ {
        Ok(Plan { url, method: Method::Post, body, decode: true })
    } else if verb == "PATCH"@ {
        Ok(Plan { url, method: Method::Patch, body, decode: true })
    } else if verb == "DELETE"@ {
        Ok(Plan { url, method: Method::Delete, body: None, decode: false })
    } else {
        Err(Failure::Validation(unsupported_verb_message(verb)))
    }
}

/// The names of the four verbs are four different texts.
pub proof fn verbs_differ()
    ensures
        "GET"@ != "POST"@,
        "GET"@ != "PATCH"@,
        "GET"@ != "DELETE"@,
        "POST"@ != "PATCH"@,
        "POST"@ != "DELETE"@,
        "PATCH"@ != "DELETE"@,
{
    reveal_strlit("GET");
    reveal_strlit("POST");
    reveal_strlit("PATCH");
    reveal_strlit("DELETE");
    assert("GET"@.len() == 3 && "POST"@.len() == 4 && "PATCH"@.len() == 5 && "DELETE"@.len() == 6);
}

/// The message that refuses the verb `verb`.
pub open spec fn unsupported_verb_message(verb: Seq<char>) -> Seq<char> {
    "Unsupported request type: "@ + verb
}

/// The outcome of planning a request, with its texts as sequences of
/// characters.
pub open spec fn plan_view(outcome: Result<Request, WebdockError>) -> Result<Plan, Failure> {
    match outcome {
        Ok(request) => Ok(request@),
        Err(error) => Err(error@),
    }
}

/// The value behind an optional reference.
pub open spec fn body_view(body: Option<&Value>) -> Option<Value> {
    match body {
        Some(value) => Some(*value),
        None => None,
    }
}

/// The error that refuses the verb `verb`.
pub fn unsupported_verb(verb: &str) -> (error: WebdockError)
    ensures
        error@ == Failure::Validation(unsupported_verb_message(verb@)),
{
    let mut message = String::from_str("Unsupported request type: ");
    message.append(verb);
    WebdockError::ValidationException(message)
}

} // verus!
