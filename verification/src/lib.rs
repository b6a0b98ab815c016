//! Request planning and response interpretation for the Webdock REST API.
//!
//! The crate decides what is sent and what a reply means; it opens no
//! connection itself. A caller asks [`Webdock`] for a [`Request`], carries it
//! over HTTP by whatever means it has, and hands the status code and body of
//! the reply to [`Webdock::send_response`].

pub mod client;
pub mod endpoints;
pub mod error;
pub mod http;
pub mod json;
pub mod laws;
pub mod provision;
pub mod request;
pub mod response;
pub mod text;

pub use client::{Header, Webdock, BASE_URL};
pub use error::WebdockError;
pub use request::{Method, Payload, Request};
