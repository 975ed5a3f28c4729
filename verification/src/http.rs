//! The HTTP binding: one POST per request, to an address that was checked
//! when the endpoint was made.

use crate::backend::{is_uri, json_text, parse_uri, parsed_uri};
use crate::error::CodecError;
use crate::json::Json;
use crate::request::Request;
use crate::wire::encode_request;
use vstd::prelude::*;

verus! {

/// The address of a server could not be read as a URI.
#[derive(Debug)]
pub struct InvalidAddress {
    /// What was wrong with the address, as the URI parser reported it.
    pub cause: hyper::http::uri::InvalidUri,
}

/// The address that a client sends its requests to.
#[derive(Debug)]
pub struct Endpoint {
    uri: hyper::Uri,
}

/// What goes out for one request: a POST with two headers and a body.
#[derive(Debug)]
pub struct Post<'a> {
    pub uri: &'a hyper::Uri,
    pub content_type: &'static str,
    pub user_agent: &'static str,
    pub body: String,
}

/// The media type of every body.
pub open spec fn content_type_text() -> Seq<char> {
    "application/json"@
}

/// The name by which the client makes itself known.
pub open spec fn user_agent_text() -> Seq<char> {
    "jason.rs/0.1.0"@
}

impl Endpoint {
    /// The URI of the endpoint.
    pub closed spec fn address(self) -> hyper::Uri {
        self.uri
    }

    /// Makes the endpoint for an address, which must be a URI. The
    /// endpoint holds the URI that was read from the address.
    pub fn new(addr: &str) -> (r: Result<Endpoint, InvalidAddress>)
        ensures
            r is Ok <==> is_uri(addr@),
            r matches Ok(endpoint) ==> endpoint.address() == parsed_uri(addr@),
    {
        match parse_uri(addr) {
            Ok(uri) => Ok(Endpoint { uri }),
            Err(cause) => Err(InvalidAddress { cause }),
        }
    }

    pub fn uri(&self) -> (uri: &hyper::Uri)
        ensures
            *uri == self.address(),
    {
        &self.uri
    }

    /// Frames a request for sending: a POST to the endpoint, with the
    /// media type, the client's name and the encoded request as the body.
    pub fn post<'a>(&'a self, request: &Request<Json>) -> (r: Result<Post<'a>, CodecError>)
        ensures
            match r {
                Ok(post) => {
                    &&& request.params@.wf()
                    &&& *post.uri == self.address()
                    &&& post.content_type@ == content_type_text()
                    &&& post.user_agent@ == user_agent_text()
                    &&& post.body@ == json_text(request@.encode())
                },
                Err(e) => !request.params@.wf() && e == CodecError::Unrepresentable,
            },
    {
        match encode_request(request) {
            Ok(body) => Ok(
                Post {
                    uri: &self.uri,
                    content_type: "application/json",
                    user_agent: "jason.rs/0.1.0",
                    body,
                },
            ),
            Err(e) => Err(e),
        }
    }
}

} // verus!
