//! The protocol version tag.

use crate::error::{CodecError, Field};
use crate::json::{Json, JsonView};
use vstd::prelude::*;

verus! {

/// Represents protocol versions.
#[derive(Debug, Clone, Copy, PartialEq, Eq, Structural, Hash)]
pub enum ProtocolVersion {
    TwoPointO,
}

impl ProtocolVersion {
    /// The text that stands for the version on the wire.
    pub open spec fn text(self) -> Seq<char> {
        "2.0"@
    }

    /// The JSON value of a version: the string `"2.0"`.
    pub open spec fn encode(self) -> JsonView {
        JsonView::String(self.text())
    }

    /// The version that a JSON value stands for: only the string `"2.0"`
    /// stands for one.
    pub open spec fn decode(value: JsonView) -> Result<ProtocolVersion, CodecError> {
        match value {
            JsonView::String(text) => if text == "2.0"@ {
                Ok(ProtocolVersion::TwoPointO)
            } else {
                Err(CodecError::InvalidVersion)
            },
            _ => Err(CodecError::WrongType(Field::Jsonrpc)),
        }
    }

    pub fn as_str(&self) -> (r: &'static str)
        ensures
            r@ == self.text(),
    {
        match self {
            ProtocolVersion::TwoPointO => "2.0",
        }
    }

    pub fn to_json(&self) -> (json: Json)
        ensures
            json@ == self.encode(),
    {
        Json::String(String::from_str(self.as_str()))
    }

    pub fn from_json(json: &Json) -> (r: Result<ProtocolVersion, CodecError>)
        ensures
            r == Self::decode(json@),
    {
        match json {
            Json::String(text) => {
                let expected = String::from_str("2.0");
                if *text == expected {
                    Ok(ProtocolVersion::TwoPointO)
                } else {
                    Err(CodecError::InvalidVersion)
                }
            },
            _ => Err(CodecError::WrongType(Field::Jsonrpc)),
        }
    }
}

} // verus!
