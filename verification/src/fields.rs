//! Reading the fields of an envelope out of a JSON object.

use crate::error::{CodecError, Field};
use crate::json::{entry_views, find, Json, JsonNumber, JsonView, Lookup, Member};
use vstd::prelude::*;

verus! {

/// The view of a decoding result: the view of what was decoded, or the error.
pub open spec fn result_view<T: View>(r: Result<T, CodecError>) -> Result<T::V, CodecError> {
    match r {
        Ok(value) => Ok(value@),
        Err(e) => Err(e),
    }
}

/// The value of a field that must be there exactly once.
pub open spec fn required_spec(entries: Seq<(Seq<char>, JsonView)>, field: Field) -> Result<
    JsonView,
    CodecError,
> {
    match lookup_field(entries, field) {
        Lookup::Absent => Err(CodecError::Missing(field)),
        Lookup::Once(value) => Ok(value),
        Lookup::Repeated => Err(CodecError::Duplicate(field)),
    }
}

/// The value of a field that may be left out: whatever stands under the
/// key, `null` included, counts as there.
pub open spec fn present_spec(entries: Seq<(Seq<char>, JsonView)>, field: Field) -> Result<
    Option<JsonView>,
    CodecError,
> {
    match lookup_field(entries, field) {
        Lookup::Absent => Ok(None),
        Lookup::Once(value) => Ok(Some(value)),
        Lookup::Repeated => Err(CodecError::Duplicate(field)),
    }
}

/// The value of a field that may be left out. A field that holds `null`
/// counts as left out.
pub open spec fn optional_spec(entries: Seq<(Seq<char>, JsonView)>, field: Field) -> Result<
    Option<JsonView>,
    CodecError,
> {
    match lookup_field(entries, field) {
        Lookup::Absent => Ok(None),
        Lookup::Once(value) => if value is Null {
            Ok(None)
        } else {
            Ok(Some(value))
        },
        Lookup::Repeated => Err(CodecError::Duplicate(field)),
    }
}

/// What the entries hold under the key of `field`.
pub open spec fn lookup_field(entries: Seq<(Seq<char>, JsonView)>, field: Field) -> Lookup<
    JsonView,
> {
    crate::json::lookup(entries, field.key())
}

/// The text of a field that must hold a string.
pub open spec fn string_spec(value: JsonView, field: Field) -> Result<Seq<char>, CodecError> {
    match value {
        JsonView::String(text) => Ok(text),
        _ => Err(CodecError::WrongType(field)),
    }
}

/// The number of a field that must hold an integer in the range of `i64`.
pub open spec fn integer_spec(value: JsonView, field: Field) -> Result<i64, CodecError> {
    match value {
        JsonView::Number(JsonNumber::PosInt(u)) => if u <= i64::MAX {
            Ok(u as i64)
        } else {
            Err(CodecError::WrongType(field))
        },
        JsonView::Number(JsonNumber::NegInt(i)) => Ok(i),
        _ => Err(CodecError::WrongType(field)),
    }
}

/// The text of a required string field.
pub open spec fn required_string(entries: Seq<(Seq<char>, JsonView)>, field: Field) -> Result<
    Seq<char>,
    CodecError,
> {
    match required_spec(entries, field) {
        Ok(value) => string_spec(value, field),
        Err(e) => Err(e),
    }
}

/// The number of a required integer field.
pub open spec fn required_integer(entries: Seq<(Seq<char>, JsonView)>, field: Field) -> Result<
    i64,
    CodecError,
> {
    match required_spec(entries, field) {
        Ok(value) => integer_spec(value, field),
        Err(e) => Err(e),
    }
}

/// Finds a field that must be there exactly once.
pub fn required<'a>(members: &'a Vec<Member>, field: Field) -> (r: Result<&'a Json, CodecError>)
    ensures
        match r {
            Ok(value) => required_spec(entry_views(members@), field) == Ok::<JsonView, CodecError>(
                value@,
            ),
            Err(e) => required_spec(entry_views(members@), field) == Err::<JsonView, CodecError>(e),
        },
{
    match find(members, field.name()) {
        Lookup::Absent => Err(CodecError::Missing(field)),
        Lookup::Once(value) => Ok(value),
        Lookup::Repeated => Err(CodecError::Duplicate(field)),
    }
}

/// Finds a field that may be left out, and takes whatever stands under
/// its key, `null` included.
pub fn present<'a>(members: &'a Vec<Member>, field: Field) -> (r: Result<
    Option<&'a Json>,
    CodecError,
>)
    ensures
        match r {
            Ok(Some(value)) => present_spec(entry_views(members@), field) == Ok::<
                Option<JsonView>,
                CodecError,
            >(Some(value@)),
            Ok(None) => present_spec(entry_views(members@), field) == Ok::<
                Option<JsonView>,
                CodecError,
            >(None),
            Err(e) => present_spec(entry_views(members@), field) == Err::<
                Option<JsonView>,
                CodecError,
            >(e),
        },
{
    match find(members, field.name()) {
        Lookup::Absent => Ok(None),
        Lookup::Once(value) => Ok(Some(value)),
        Lookup::Repeated => Err(CodecError::Duplicate(field)),
    }
}

/// Finds a field that may be left out, and takes `null` for left out.
pub fn optional<'a>(members: &'a Vec<Member>, field: Field) -> (r: Result<
    Option<&'a Json>,
    CodecError,
>)
    ensures
        match r {
            Ok(Some(value)) => optional_spec(entry_views(members@), field) == Ok::<
                Option<JsonView>,
                CodecError,
            >(Some(value@)),
            Ok(None) => optional_spec(entry_views(members@), field) == Ok::<
                Option<JsonView>,
                CodecError,
            >(None),
            Err(e) => optional_spec(entry_views(members@), field) == Err::<
                Option<JsonView>,
                CodecError,
            >(e),
        },
{
    match find(members, field.name()) {
        Lookup::Absent => Ok(None),
        Lookup::Once(value) => match value {
            Json::Null => Ok(None),
            _ => Ok(Some(value)),
        },
        Lookup::Repeated => Err(CodecError::Duplicate(field)),
    }
}

/// Copies the text out of a string value.
pub fn string_of(value: &Json, field: Field) -> (r: Result<String, CodecError>)
    ensures
        result_view(r) == string_spec(value@, field),
{
    match value {
        Json::String(text) => Ok(text.clone()),
        _ => Err(CodecError::WrongType(field)),
    }
}

/// Reads an integer in the range of `i64` out of a number value.
pub fn integer_of(value: &Json, field: Field) -> (r: Result<i64, CodecError>)
    ensures
        r == integer_spec(value@, field),
{
    match value {
        Json::Number(JsonNumber::PosInt(u)) => {
            if *u <= 0x7fff_ffff_ffff_ffff {
                Ok(*u as i64)
            } else {
                Err(CodecError::WrongType(field))
            }
        },
        Json::Number(JsonNumber::NegInt(i)) => Ok(*i),
        _ => Err(CodecError::WrongType(field)),
    }
}

} // verus!
