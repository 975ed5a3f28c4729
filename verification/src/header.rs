//! The two fields that open every envelope with an answer: the protocol
//! version and the request identifier.

use crate::error::{CodecError, Field};
use crate::fields::{required, required_spec, result_view};
use crate::id::{IdView, RequestId};
use crate::json::{entry_views, Json, JsonView, Member};
use crate::version::ProtocolVersion;
use vstd::prelude::*;

verus! {

/// The protocol version that an object's entries give.
pub open spec fn version_of(entries: Seq<(Seq<char>, JsonView)>) -> Result<
    ProtocolVersion,
    CodecError,
> {
    match required_spec(entries, Field::Jsonrpc) {
        Ok(value) => ProtocolVersion::decode(value),
        Err(e) => Err(e),
    }
}

/// The request identifier that an object's entries give.
pub open spec fn id_of(entries: Seq<(Seq<char>, JsonView)>) -> Result<IdView, CodecError> {
    match required_spec(entries, Field::Id) {
        Ok(value) => IdView::decode(value),
        Err(e) => Err(e),
    }
}

/// Reads the protocol version out of an object.
pub fn read_version(members: &Vec<Member>) -> (r: Result<ProtocolVersion, CodecError>)
    ensures
        r == version_of(entry_views(members@)),
{
    match required(members, Field::Jsonrpc) {
        Ok(value) => ProtocolVersion::from_json(value),
        Err(e) => Err(e),
    }
}

/// Reads the request identifier out of an object.
pub fn read_id(members: &Vec<Member>) -> (r: Result<RequestId, CodecError>)
    ensures
        result_view(r) == id_of(entry_views(members@)),
{
    match required(members, Field::Id) {
        Ok(value) => RequestId::from_json(value),
        Err(e) => Err(e),
    }
}

/// Makes the entry that stands for a field.
pub fn entry(field: Field, value: Json) -> (member: Member)
    ensures
        member@ == (field.key(), value@),
{
    Member { key: String::from_str(field.name()), value }
}

} // verus!
