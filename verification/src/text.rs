//! JSON text.

use crate::backend::{json_parse, json_text, parse, print};
use crate::error::CodecError;
use crate::json::Json;
use vstd::prelude::*;

verus! {

/// Writes a value as JSON text. A value that is not well formed has no
/// text, and is refused; every other value is written.
pub fn to_text(json: &Json) -> (r: Result<String, CodecError>)
    ensures
        match r {
            Ok(text) => json@.wf() && text@ == json_text(json@),
            Err(e) => !json@.wf() && e == CodecError::Unrepresentable,
        },
{
    if !json.is_well_formed() {
        return Err(CodecError::Unrepresentable);
    }
    match print(json) {
        Ok(text) => Ok(text),
        Err(_) => Err(CodecError::Unrepresentable),
    }
}

/// Reads a value from JSON text.
pub fn from_text(text: &[u8]) -> (r: Result<Json, CodecError>)
    ensures
        match r {
            Ok(json) => json_parse(text@) == Some(json@) && json@.wf(),
            Err(e) => e == CodecError::Syntax && json_parse(text@).is_none(),
        },
{
    match parse(text) {
        Ok(json) => Ok(json),
        Err(_) => Err(CodecError::Syntax),
    }
}

} // verus!
