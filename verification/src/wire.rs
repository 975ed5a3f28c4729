//! Envelopes as the bytes that travel: what a transport sends for a
//! request, and what it makes of the bytes that come back.

use crate::backend::{json_parse, json_text};
use crate::error::CodecError;
use crate::fields::result_view;
use crate::json::{Json, JsonView};
use crate::laws::lemma_request_well_formed;
use crate::request::Request;
use crate::response::{decode_response as decode_spec, ErrorResView, Response, ResultResView};
use crate::text::{from_text, to_text};
use vstd::prelude::*;

verus! {

/// What decoding a response makes of a text: the text must be JSON, and
/// the JSON a response.
pub open spec fn response_of_text(text: Seq<u8>) -> Result<
    Result<ResultResView<JsonView>, ErrorResView<JsonView>>,
    CodecError,
> {
    match json_parse(text) {
        Some(value) => decode_spec(value),
        None => Err(CodecError::Syntax),
    }
}

/// Encodes a request as the JSON text of its object. Parameters that are
/// not well formed cannot be written, and are refused; with any other
/// parameters the request is written.
pub fn encode_request(request: &Request<Json>) -> (r: Result<String, CodecError>)
    ensures
        match r {
            Ok(text) => request.params@.wf() && text@ == json_text(request@.encode()),
            Err(e) => !request.params@.wf() && e == CodecError::Unrepresentable,
        },
{
    proof {
        lemma_request_well_formed(request@);
    }
    let json = request.to_json();
    to_text(&json)
}

/// Decodes a response from the bytes of a reply.
pub fn decode_response(text: &[u8]) -> (r: Result<Response<Json, Json>, CodecError>)
    ensures
        result_view(r) == response_of_text(text@),
{
    match from_text(text) {
        Ok(json) => Response::from_json(&json),
        Err(e) => Err(e),
    }
}

} // verus!
