//! Request identifiers.

use crate::error::CodecError;
use crate::fields::result_view;
use crate::json::{Json, JsonNumber, JsonView};
use vstd::prelude::*;
use vstd::std_specs::cmp::PartialEqSpecImpl;

verus! {

/// Represents a request ID.
#[derive(Debug, Eq, Hash)]
pub enum RequestId {
    String(String),
    Number(u64),
}

/// The mathematical value of a request ID.
pub enum IdView {
    String(Seq<char>),
    Number(u64),
}

impl View for RequestId {
    type V = IdView;

    open spec fn view(&self) -> IdView {
        match self {
            RequestId::String(text) => IdView::String(text@),
            RequestId::Number(n) => IdView::Number(*n),
        }
    }
}

impl IdView {
    /// The JSON value of an identifier: a string for a string, a number
    /// for a number.
    pub open spec fn encode(self) -> JsonView {
        match self {
            IdView::String(text) => JsonView::String(text),
            IdView::Number(n) => JsonView::Number(JsonNumber::PosInt(n)),
        }
    }

    /// The identifier that a JSON value stands for. A string is taken as
    /// it is; a number must be an unsigned 64-bit integer; nothing else is
    /// an identifier.
    pub open spec fn decode(value: JsonView) -> Result<IdView, CodecError> {
        match value {
            JsonView::Number(JsonNumber::PosInt(n)) => Ok(IdView::Number(n)),
            JsonView::Number(_) => Err(CodecError::IdNotU64),
            JsonView::String(text) => Ok(IdView::String(text)),
            _ => Err(CodecError::IdNotStringOrNumber),
        }
    }
}

impl Clone for RequestId {
    fn clone(&self) -> (r: Self)
        ensures
            r@ == self@,
    {
        match self {
            RequestId::String(text) => RequestId::String(text.clone()),
            RequestId::Number(n) => RequestId::Number(*n),
        }
    }
}

impl PartialEq for RequestId {
    fn eq(&self, other: &Self) -> (r: bool) {
        match (self, other) {
            (RequestId::String(s1), RequestId::String(s2)) => *s1 == *s2,
            (RequestId::Number(n1), RequestId::Number(n2)) => *n1 == *n2,
            _ => false,
        }
    }
}

impl PartialEqSpecImpl for RequestId {
    open spec fn obeys_eq_spec() -> bool {
        true
    }

    /// Two identifiers are equal when they are of the same kind and hold
    /// the same text or the same number.
    open spec fn eq_spec(&self, other: &Self) -> bool {
        self@ == other@
    }
}

impl RequestId {
    pub fn to_json(&self) -> (json: Json)
        ensures
            json@ == self@.encode(),
    {
        match self {
            RequestId::String(text) => Json::String(text.clone()),
            RequestId::Number(n) => Json::Number(JsonNumber::PosInt(*n)),
        }
    }

    pub fn from_json(json: &Json) -> (r: Result<RequestId, CodecError>)
        ensures
            result_view(r) == IdView::decode(json@),
    {
        match json {
            Json::Number(JsonNumber::PosInt(n)) => Ok(RequestId::Number(*n)),
            Json::Number(_) => Err(CodecError::IdNotU64),
            Json::String(text) => Ok(RequestId::String(text.clone())),
            _ => Err(CodecError::IdNotStringOrNumber),
        }
    }
}

} // verus!
