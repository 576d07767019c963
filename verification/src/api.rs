//! The inbound HTTP surface's plain data: the extracted request, the api-key
//! header value, and the response headers every reply carries. Reading them
//! off the transport is the surrounding process's work; here they are plain
//! strings with exact contracts.

use vstd::prelude::*;
use crate::entry::StoredRequest;

verus! {

/// The value of the inbound request's api-key header; empty when absent.
pub struct ApiKey<'a>(pub &'a str);

/// Why an api key could not be taken from a request.
#[derive(Debug)]
pub enum ApiKeyError {
    MissingError,
    InvalidError,
}

impl<'a> ApiKey<'a> {
    /// The key as an owned string.
    pub fn to_string(&self) -> (r: String)
        ensures
            r@ == self.0@,
    {
        String::from_str(self.0)
    }
}

/// One inbound request, deconstructed to plain values: method, originating
/// host and port, uri with query, headers as one opaque serialized string,
/// and the raw body.
#[derive(Debug)]
pub struct RRequest {
    pub method: String,
    pub host: String,
    pub port: u16,
    pub uri: String,
    pub headers: String,
    pub body: String,
}

/// Why an inbound request could not be deconstructed.
#[derive(Debug)]
pub enum RRequestError {
    MissingError,
    InvalidError,
}

impl RRequest {
    /// The queue payload this request ingests as: every field captured
    /// verbatim, with `body` replacing whatever the transport carried.
    pub fn into_stored(self, body: String) -> (r: StoredRequest)
        ensures
            r.method == self.method,
            r.host == self.host,
            r.port == self.port,
            r.uri == self.uri,
            r.headers == self.headers,
            r.body == body,
    {
        StoredRequest {
            method: self.method,
            host: self.host,
            port: self.port,
            uri: self.uri,
            headers: self.headers,
            body,
        }
    }
}

/// The response-header policy: every reply allows any origin, the listed
/// methods, and any header.
pub struct CORS;

impl CORS {
    /// The allow-origin header and its value.
    pub fn allow_origin() -> (r: (&'static str, &'static str))
        ensures
            r.0@ == "Access-Control-Allow-Origin"@,
            r.1@ == "*"@,
    {
        ("Access-Control-Allow-Origin", "*")
    }

    /// The allow-methods header and its value.
    pub fn allow_methods() -> (r: (&'static str, &'static str))
        ensures
            r.0@ == "Access-Control-Allow-Methods"@,
            r.1@ == "POST, GET, PATCH, OPTIONS"@,
    {
        ("Access-Control-Allow-Methods", "POST, GET, PATCH, OPTIONS")
    }

    /// The allow-headers header and its value.
    pub fn allow_headers() -> (r: (&'static str, &'static str))
        ensures
            r.0@ == "Access-Control-Allow-Headers"@,
            r.1@ == "*"@,
    {
        ("Access-Control-Allow-Headers", "*")
    }
}

} // verus!
