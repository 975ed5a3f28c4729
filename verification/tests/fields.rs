use jason::fields::{integer_of, optional, present, required, string_of};
use jason::header::{entry, read_id, read_version};
use jason::request::read_string;
use jason::response::integer_to_json;
use jason::{CodecError, Field, Json, JsonNumber, Member, ProtocolVersion, RawError, RequestId};

fn members() -> Vec<Member> {
    vec![
        entry(Field::Jsonrpc, Json::String("2.0".to_string())),
        entry(Field::Id, Json::Number(JsonNumber::PosInt(4))),
        entry(Field::Data, Json::Null),
        entry(Field::Code, Json::Number(JsonNumber::NegInt(-3))),
        entry(Field::Code, Json::Number(JsonNumber::NegInt(-4))),
        entry(Field::Message, Json::String("hello".to_string())),
    ]
}

#[test]
fn entry_is_keyed_by_its_field() {
    assert_eq!(
        entry(Field::Outcome, Json::Bool(true)),
        Member { key: "result".to_string(), value: Json::Bool(true) }
    );
    assert_eq!(
        entry(Field::Failure, Json::Null),
        Member { key: "error".to_string(), value: Json::Null }
    );
}

#[test]
fn required_field_must_be_there_once() {
    let members = members();
    assert_eq!(required(&members, Field::Id), Ok(&Json::Number(JsonNumber::PosInt(4))));
    assert_eq!(required(&members, Field::Data), Ok(&Json::Null));
    assert_eq!(required(&members, Field::Method), Err(CodecError::Missing(Field::Method)));
    assert_eq!(required(&members, Field::Code), Err(CodecError::Duplicate(Field::Code)));
}

#[test]
fn optional_field_may_be_absent_or_null() {
    let members = members();
    assert_eq!(optional(&members, Field::Id), Ok(Some(&Json::Number(JsonNumber::PosInt(4)))));
    assert_eq!(optional(&members, Field::Data), Ok(None));
    assert_eq!(optional(&members, Field::Outcome), Ok(None));
    assert_eq!(optional(&members, Field::Code), Err(CodecError::Duplicate(Field::Code)));
}

#[test]
fn present_field_may_hold_null() {
    let members = members();
    assert_eq!(present(&members, Field::Id), Ok(Some(&Json::Number(JsonNumber::PosInt(4)))));
    assert_eq!(present(&members, Field::Data), Ok(Some(&Json::Null)));
    assert_eq!(present(&members, Field::Outcome), Ok(None));
    assert_eq!(present(&members, Field::Code), Err(CodecError::Duplicate(Field::Code)));
}

#[test]
fn strings_are_read_from_strings_only() {
    assert_eq!(
        string_of(&Json::String("a".to_string()), Field::Method),
        Ok("a".to_string())
    );
    assert_eq!(string_of(&Json::Null, Field::Method), Err(CodecError::WrongType(Field::Method)));
    assert_eq!(
        string_of(&Json::Number(JsonNumber::PosInt(1)), Field::Message),
        Err(CodecError::WrongType(Field::Message))
    );
    let members = members();
    assert_eq!(read_string(&members, Field::Message), Ok("hello".to_string()));
    assert_eq!(read_string(&members, Field::Id), Err(CodecError::WrongType(Field::Id)));
    assert_eq!(read_string(&members, Field::Params), Err(CodecError::Missing(Field::Params)));
}

#[test]
fn integers_are_read_within_their_range() {
    let at = |n: JsonNumber| integer_of(&Json::Number(n), Field::Code);
    assert_eq!(at(JsonNumber::PosInt(0)), Ok(0));
    assert_eq!(at(JsonNumber::PosInt(9223372036854775807)), Ok(i64::MAX));
    assert_eq!(at(JsonNumber::PosInt(9223372036854775808)), Err(CodecError::WrongType(Field::Code)));
    assert_eq!(at(JsonNumber::NegInt(i64::MIN)), Ok(i64::MIN));
    assert_eq!(at(JsonNumber::NegInt(-1)), Ok(-1));
    assert_eq!(
        integer_of(&Json::String("1".to_string()), Field::Code),
        Err(CodecError::WrongType(Field::Code))
    );
}

#[test]
fn integers_are_written_by_their_sign() {
    assert_eq!(integer_to_json(0), Json::Number(JsonNumber::PosInt(0)));
    assert_eq!(integer_to_json(i64::MAX), Json::Number(JsonNumber::PosInt(9223372036854775807)));
    assert_eq!(integer_to_json(-1), Json::Number(JsonNumber::NegInt(-1)));
    assert_eq!(integer_to_json(i64::MIN), Json::Number(JsonNumber::NegInt(i64::MIN)));
}

#[test]
fn header_fields_are_read_from_the_entries() {
    let members = members();
    assert_eq!(read_version(&members), Ok(ProtocolVersion::TwoPointO));
    assert_eq!(read_id(&members), Ok(RequestId::Number(4)));
    let none: Vec<Member> = vec![];
    assert_eq!(read_version(&none), Err(CodecError::Missing(Field::Jsonrpc)));
    assert_eq!(read_id(&none), Err(CodecError::Missing(Field::Id)));
}

#[test]
fn error_member_is_read_from_an_object() {
    let json = Json::Object(vec![
        entry(Field::Message, Json::String("m".to_string())),
        entry(Field::Code, Json::Number(JsonNumber::PosInt(12))),
        entry(Field::Data, Json::Array(vec![])),
    ]);
    assert_eq!(
        RawError::from_json(&json),
        Ok(RawError { code: 12, message: "m".to_string(), data: Some(Json::Array(vec![])) })
    );
    assert_eq!(RawError::from_json(&Json::Array(vec![])), Err(CodecError::WrongType(Field::Failure)));
    let json = Json::Object(vec![
        entry(Field::Message, Json::String("m".to_string())),
        entry(Field::Code, Json::Number(JsonNumber::PosInt(12))),
        entry(Field::Data, Json::Null),
        entry(Field::Data, Json::Null),
    ]);
    assert_eq!(RawError::from_json(&json), Err(CodecError::Duplicate(Field::Data)));
}
