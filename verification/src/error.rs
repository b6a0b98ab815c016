//! The ways in which a call can fail.

use vstd::prelude::*;

verus! {

/// Why a call did not produce a result.
#[derive(Debug)]
pub enum WebdockError {
    /// The request could not be carried: connection, TLS, timeout.
    ReqwestError(reqwest::Error),
    /// The service answered with a status code that is no success. Holds the
    /// code and the message made from it.
    WebdockException(u16, String),
    /// The input was refused before anything was sent.
    ValidationException(String),
    /// The service answered with success, but its body is not the JSON that
    /// was expected.
    DecodeException(serde_json::Error),
}

/// A [`WebdockError`] with its messages as sequences of characters.
pub enum Failure {
    Transport(reqwest::Error),
    Service(u16, Seq<char>),
    Validation(Seq<char>),
    Decode(serde_json::Error),
}

impl View for WebdockError {
    type V = Failure;

    open spec fn view(&self) -> Failure {
        match *self {
            WebdockError::ReqwestError(cause) => Failure::Transport(cause),
            WebdockError::WebdockException(code, message) => Failure::Service(code, message@),
            WebdockError::ValidationException(message) => Failure::Validation(message@),
            WebdockError::DecodeException(cause) => Failure::Decode(cause),
        }
    }
}

impl From<reqwest::Error> for WebdockError {
    fn from(err: reqwest::Error) -> (e: Self) {
        WebdockError::ReqwestError(err)
    }
}

impl vstd::std_specs::convert::FromSpecImpl<reqwest::Error> for WebdockError {
    open spec fn obeys_from_spec() -> bool {
        true
    }

    open spec fn from_spec(err: reqwest::Error) -> Self {
        WebdockError::ReqwestError(err)
    }
}

} // verus!
