//! The client: its configuration and the calls it offers.

use crate::endpoints::{standard_endpoints, EndpointTable};
use crate::error::{Failure, WebdockError};
use crate::http::{header_char, header_text, header_value_accepts};
use crate::json::{json_fields, json_parsed, parse};
use crate::provision::{find_missing, invalid_data, missing_field, provisioned, required_fields, texts};
use crate::request::{
    body_view, plan_view, planned, unsupported_verb, verbs_differ, Method, Payload, Plan, Request,
};
use crate::response::{
    decoded, describe_status, is_success_code, reads_body, reply, reply_view, service_error,
};
use crate::text::text_eq;
use serde_json::Value;
use vstd::prelude::*;
use vstd::string::StringExecFns;

verus! {

/// The address under which the service keeps its resources.
pub const BASE_URL: &'static str = "https://api.webdock.io/v1";

/// One header: its name and its value.
#[derive(Debug)]
pub struct Header {
    pub name: &'static str,
    pub value: String,
}

impl View for Header {
    type V = (Seq<char>, Seq<char>);

    open spec fn view(&self) -> (Seq<char>, Seq<char>) {
        (self.name@, self.value@)
    }
}

/// The headers that go out with every request of a client whose token is
/// `token`.
pub open spec fn default_headers(token: Seq<char>) -> Seq<(Seq<char>, Seq<char>)> {
    seq![
        ("Content-Type"@, "application/json"@),
        ("Authorization"@, "Bearer "@ + token),
        ("X-Client"@, "webdock-rust-sdk/v1.0.0"@),
    ]
}

/// The address of the resource `name`.
pub open spec fn resource_url(name: Seq<char>) -> Seq<char> {
    BASE_URL@ + "/"@ + standard_endpoints()[name]
}

/// A header value may hold the word that stands before the token, so the
/// value of the authorization header is fit to be sent exactly when the token
/// is.
pub proof fn bearer_is_header_text(token: Seq<char>)
    ensures
        header_text("Bearer "@ + token) <==> header_text(token),
{
    reveal_strlit("Bearer ");
    let value = "Bearer "@ + token;
    if header_text(value) {
        assert forall|i: int| 0 <= i < token.len() implies header_char(#[trigger] token[i]) by {
            assert(value[i + 7] == token[i]);
        }
    }
    if header_text(token) {
        assert forall|i: int| 0 <= i < value.len() implies header_char(#[trigger] value[i]) by {
            if i >= 7 {
                assert(value[i] == token[i - 7]);
            }
        }
    }
}

/// A client of the Webdock API: the base URL, the endpoint table and the
/// token, none of which changes once the client is made.
pub struct Webdock {
    base_url: String,
    endpoints: EndpointTable,
    token: String,
}

impl Webdock {
    #[verifier::type_invariant]
    spec fn configured(self) -> bool {
        &&& self.base_url@ == BASE_URL@
        &&& self.endpoints@ == standard_endpoints()
        &&& header_text(self.token@)
    }

    /// The token that the client authenticates with.
    pub closed spec fn token(&self) -> Seq<char> {
        self.token@
    }

    /// A client that authenticates with `api_token`.
    pub fn new(api_token: &str) -> (client: Self)
        requires
            header_text(api_token@),
        ensures
            client.token() == api_token@,
    {
        Webdock {
            base_url: String::from_str(BASE_URL),
            endpoints: EndpointTable::standard(),
            token: String::from_str(api_token),
        }
    }

    /// A client that authenticates with `api_token`, or `None` where the
    /// token cannot be sent in a header.
    pub fn try_new(api_token: &str) -> (client: Option<Self>)
        ensures
            client is Some <==> header_text(api_token@),
            client matches Some(made) ==> made.token() == api_token@,
    {
        let mut authorization = String::from_str("Bearer ");
        authorization.append(api_token);
        proof {
            bearer_is_header_text(api_token@);
        }
        if header_value_accepts(authorization.as_str()) {
            Some(Webdock::new(api_token))
        } else {
            None
        }
    }

    /// The headers that go out with every request.
    pub fn headers(&self) -> (list: Vec<Header>)
        ensures
            list@.map_values(|header: Header| header@) == default_headers(self.token()),
            forall|i: int| 0 <= i < list.len() ==> header_text(#[trigger] list[i].value@),
    {
        proof {
            use_type_invariant(self);
            bearer_is_header_text(self.token@);
            reveal_strlit("application/json");
            reveal_strlit("webdock-rust-sdk/v1.0.0");
        }
        let mut authorization = String::from_str("Bearer ");
        authorization.append(self.token.as_str());
        let mut list: Vec<Header> = Vec::new();
        list.push(Header { name: "Content-Type", value: String::from_str("application/json") });
        list.push(Header { name: "Authorization", value: authorization });
        list.push(Header { name: "X-Client", value: String::from_str("webdock-rust-sdk/v1.0.0") });
        proof {
            assert(list@.map_values(|header: Header| header@) =~= default_headers(self.token()));
        }
        list
    }

    /// The path segment of the resource `name`, if the endpoint table has it.
    pub fn endpoint(&self, name: &str) -> (path: Option<&'static str>)
        ensures
            path is Some <==> standard_endpoints().contains_key(name@),
            path matches Some(segment) ==> segment@ == standard_endpoints()[name@],
    {
        proof {
            use_type_invariant(self);
        }
        self.endpoints.get(name)
    }

    /// Plans the request that `request_type` asks for on the path segment
    /// `endpoint`. A verb other than `GET`, `POST`, `PATCH` and `DELETE` is
    /// refused, and nothing is to be sent then.
    pub fn make_request<'a>(&self, endpoint: &str, request_type: &str, data: Option<&'a Value>) -> (outcome:
        Result<Request<'a>, WebdockError>)
        requires
            request_type@ == "POST"@ || request_type@ == "PATCH"@ ==> data is Some,
        ensures
            plan_view(outcome) == planned(BASE_URL@, endpoint@, request_type@, body_view(data)),
    {
        proof {
            use_type_invariant(self);
        }
        let get = text_eq(request_type, "GET");
        let post = text_eq(request_type, "POST");
        let patch = text_eq(request_type, "PATCH");
        let delete = text_eq(request_type, "DELETE");
        if !get && !post && !patch && !delete {
            return Err(unsupported_verb(request_type));
        }
        let mut url = self.base_url.clone();
        url.append("/");
        url.append(endpoint);
        if get {
            Ok(Request { url, method: Method::Get, body: None, decode: true })
        } else if post {
            Ok(Request { url, method: Method::Post, body: data, decode: true })
        } else if patch {
            Ok(Request { url, method: Method::Patch, body: data, decode: true })
        } else {
            Ok(Request { url, method: Method::Delete, body: None, decode: false })
        }
    }

    /// Plans the request that `verb` asks for on the resource `resource`, at
    /// the address that the endpoint table gives for it.
    pub fn request<'a>(&self, resource: &str, verb: &str, body: Option<&'a Value>) -> (outcome: Result<
        Request<'a>,
        WebdockError,
    >)
        requires
            standard_endpoints().contains_key(resource@),
            verb@ == "POST"@ || verb@ == "PATCH"@ ==> body is Some,
        ensures
            plan_view(outcome) == planned(
                BASE_URL@,
                standard_endpoints()[resource@],
                verb@,
                body_view(body),
            ),
    {
        let path = self.endpoint(resource).unwrap();
        self.make_request(path, verb, body)
    }

    /// Plans a ping: a `GET` of the ping resource.
    pub fn ping(&self) -> (outcome: Result<Request<'static>, WebdockError>)
        ensures
            plan_view(outcome) == Ok::<Plan, Failure>(
                Plan { url: resource_url("ping"@), method: Method::Get, body: None, decode: true },
            ),
    {
        proof {
            verbs_differ();
        }
        self.request("ping", "GET", None)
    }

    /// Plans the listing of the account's servers: a `GET` of the servers
    /// resource.
    pub fn servers(&self) -> (outcome: Result<Request<'static>, WebdockError>)
        ensures
            plan_view(outcome) == Ok::<Plan, Failure>(
                Plan {
                    url: resource_url("servers"@),
                    method: Method::Get,
                    body: None,
                    decode: true,
                },
            ),
    {
        proof {
            verbs_differ();
        }
        self.request("servers", "GET", None)
    }

    /// Plans the provisioning of a server from `data`: a `POST` of `data` to
    /// the servers resource. Data that is no JSON object, or that lacks one of
    /// the members a server needs, is refused, and nothing is to be sent
    /// then.
    pub fn provision_server<'a>(&self, data: &'a Value) -> (outcome: Result<Request<'a>, WebdockError>)
        ensures
            plan_view(outcome) == provisioned(resource_url("servers"@), *data, json_fields(*data)),
    {
        let required: [&'static str; 5] = ["name", "slug", "locationId", "profileSlug", "imageSlug"];
        let fields = required.as_slice();
        proof {
            verbs_differ();
            assert(texts(fields@) =~= required_fields());
        }
        match data.as_object() {
            None => Err(invalid_data()),
            Some(object) => match find_missing(object, fields) {
                Some(field) => Err(missing_field(field)),
                None => self.request("servers", "POST", Some(data)),
            },
        }
    }

    /// Interprets a reply: the status code decides, and the body is read only
    /// where the code is a success and `json` says that a JSON body is
    /// expected.
    pub fn send_response(&self, status: u16, body: &[u8], json: bool) -> (outcome: Result<
        Payload,
        WebdockError,
    >)
        ensures
            reply_view(outcome) == reply(status, json, json_parsed(body@)),
    {
        if !is_success_code(status) {
            let text = describe_status(status);
            Err(service_error(status, text.as_str()))
        } else if reads_body(status, json) {
            decoded(parse(body))
        } else {
            Ok(Payload::Empty)
        }
    }
}

} // verus!
