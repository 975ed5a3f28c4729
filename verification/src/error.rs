//! What can go wrong while encoding or decoding an envelope.

use vstd::prelude::*;

verus! {

/// A field of an envelope, named as it is on the wire.
#[derive(Debug, Clone, Copy, PartialEq, Eq, Structural, Hash)]
pub enum Field {
    Jsonrpc,
    Id,
    Method,
    Params,
    Outcome,
    Failure,
    Code,
    Message,
    Data,
}

impl Field {
    /// The key under which the field stands in a JSON object.
    pub open spec fn key(self) -> Seq<char> {
        match self {
            Field::Jsonrpc => "jsonrpc"@,
            Field::Id => "id"@,
            Field::Method => "method"@,
            Field::Params => "params"@,
            Field::Outcome => "result"@,
            Field::Failure => "error"@,
            Field::Code => "code"@,
            Field::Message => "message"@,
            Field::Data => "data"@,
        }
    }

    pub fn name(&self) -> (r: &'static str)
        ensures
            r@ == self.key(),
    {
        match self {
            Field::Jsonrpc => "jsonrpc",
            Field::Id => "id",
            Field::Method => "method",
            Field::Params => "params",
            Field::Outcome => "result",
            Field::Failure => "error",
            Field::Code => "code",
            Field::Message => "message",
            Field::Data => "data",
        }
    }
}

/// Why a message could not be encoded or decoded.
#[derive(Debug, Clone, Copy, PartialEq, Eq, Structural, Hash)]
pub enum CodecError {
    /// The text is not JSON.
    Syntax,
    /// The value holds something JSON cannot express.
    Unrepresentable,
    /// The message is not a JSON object.
    NotAnObject,
    /// A required field is absent.
    Missing(Field),
    /// A field occurs more than once.
    Duplicate(Field),
    /// A field holds a value of the wrong JSON kind.
    WrongType(Field),
    /// The protocol version is not `"2.0"`.
    InvalidVersion,
    /// The request id is a number, but not an unsigned 64-bit integer.
    IdNotU64,
    /// The request id is neither a string nor a number.
    IdNotStringOrNumber,
    /// The response holds neither a result nor an error.
    NeitherResultNorError,
    /// The response holds both a result and an error.
    BothResultAndError,
}

impl CodecError {
    /// The words in which the error is reported.
    pub open spec fn text(self) -> Seq<char> {
        match self {
            CodecError::Syntax => "invalid JSON text"@,
            CodecError::Unrepresentable => "value cannot be written as JSON"@,
            CodecError::NotAnObject => "message must be a JSON object"@,
            CodecError::Missing(field) => "missing field `"@ + field.key() + "`"@,
            CodecError::Duplicate(field) => "duplicate field `"@ + field.key() + "`"@,
            CodecError::WrongType(field) => "invalid type for field `"@ + field.key() + "`"@,
            CodecError::InvalidVersion => "invalid RPC protocol version"@,
            CodecError::IdNotU64 => "request id must be u64"@,
            CodecError::IdNotStringOrNumber => "request id must be either string or number"@,
            CodecError::NeitherResultNorError =>
                "response does not contain neither result nor error"@,
            CodecError::BothResultAndError => "respose must not contain both result and error"@,
        }
    }

    /// Reports the error in words. The words are fixed for each kind of
    /// error, so a caller can tell the kinds apart by them.
    pub fn message(&self) -> (r: String)
        ensures
            r@ == self.text(),
    {
        match self {
            CodecError::Syntax => String::from_str("invalid JSON text"),
            CodecError::Unrepresentable => String::from_str("value cannot be written as JSON"),
            CodecError::NotAnObject => String::from_str("message must be a JSON object"),
            CodecError::Missing(field) => String::from_str("missing field `").concat(
                field.name(),
            ).concat("`"),
            CodecError::Duplicate(field) => String::from_str("duplicate field `").concat(
                field.name(),
            ).concat("`"),
            CodecError::WrongType(field) => String::from_str("invalid type for field `").concat(
                field.name(),
            ).concat("`"),
            CodecError::InvalidVersion => String::from_str("invalid RPC protocol version"),
            CodecError::IdNotU64 => String::from_str("request id must be u64"),
            CodecError::IdNotStringOrNumber => String::from_str(
                "request id must be either string or number",
            ),
            CodecError::NeitherResultNorError => String::from_str(
                "response does not contain neither result nor error",
            ),
            CodecError::BothResultAndError => String::from_str(
                "respose must not contain both result and error",
            ),
        }
    }
}

} // verus!
