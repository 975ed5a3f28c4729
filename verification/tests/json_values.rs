use jason::json::{find, has_distinct_keys, Lookup};
use jason::text::{from_text, to_text};
use jason::{CodecError, Json, JsonNumber, Member};

fn entry(key: &str, value: Json) -> Member {
    Member { key: key.to_string(), value }
}

#[test]
fn text_is_read_into_values() {
    let json = from_text(b" {\"a\": [1, -2, \"x\", null, true], \"b\": {}} ").unwrap();
    assert_eq!(
        json,
        Json::Object(vec![
            entry(
                "a",
                Json::Array(vec![
                    Json::Number(JsonNumber::PosInt(1)),
                    Json::Number(JsonNumber::NegInt(-2)),
                    Json::String("x".to_string()),
                    Json::Null,
                    Json::Bool(true),
                ])
            ),
            entry("b", Json::Object(vec![])),
        ])
    );
}

#[test]
fn values_are_written_as_text() {
    let json = Json::Object(vec![
        entry("z", Json::Number(JsonNumber::PosInt(u64::MAX))),
        entry("a", Json::Array(vec![Json::Number(JsonNumber::NegInt(i64::MIN)), Json::Null])),
        entry("s", Json::String("q\"\n".to_string())),
    ]);
    assert_eq!(
        to_text(&json).unwrap(),
        "{\"z\":18446744073709551615,\"a\":[-9223372036854775808,null],\"s\":\"q\\\"\\n\"}"
    );
}

#[test]
fn fractions_are_carried_through() {
    let json = from_text(b"[1.5, 1e3, -0.25]").unwrap();
    match &json {
        Json::Array(items) => {
            assert_eq!(items.len(), 3);
            for item in items {
                assert!(matches!(item, Json::Number(JsonNumber::Float(_))));
            }
        }
        _ => panic!("an array was expected"),
    }
    assert_eq!(to_text(&json).unwrap(), "[1.5,1000.0,-0.25]");
    assert_eq!(json.clone(), json);
    match &json {
        Json::Array(items) => match &items[0] {
            Json::Number(JsonNumber::Float(fraction)) => {
                assert_eq!(fraction.number().as_f64(), Some(1.5));
                assert_eq!(fraction.number().as_u64(), None);
                assert_eq!(fraction.clone(), *fraction);
            }
            _ => panic!("a fraction was expected"),
        },
        _ => panic!("an array was expected"),
    }
}

#[test]
fn integers_beyond_the_range_are_no_integers() {
    let json = from_text(b"[18446744073709551615, 18446744073709551616, -9223372036854775809]")
        .unwrap();
    match &json {
        Json::Array(items) => {
            assert_eq!(items[0], Json::Number(JsonNumber::PosInt(u64::MAX)));
            assert!(matches!(items[1], Json::Number(JsonNumber::Float(_))));
            assert!(matches!(items[2], Json::Number(JsonNumber::Float(_))));
        }
        _ => panic!("an array was expected"),
    }
    assert!(json.is_well_formed());
}

#[test]
fn text_that_is_not_json_is_refused() {
    assert_eq!(from_text(b"{"), Err(CodecError::Syntax));
    assert_eq!(from_text(b"[1,]"), Err(CodecError::Syntax));
    assert_eq!(from_text(b"1 2"), Err(CodecError::Syntax));
    assert_eq!(from_text(&[0xff, 0xfe]), Err(CodecError::Syntax));
}

#[test]
fn values_that_are_not_well_formed_are_not_written() {
    let twice = Json::Object(vec![entry("a", Json::Null), entry("a", Json::Bool(true))]);
    assert!(!twice.is_well_formed());
    assert_eq!(to_text(&twice), Err(CodecError::Unrepresentable));

    let deep = Json::Array(vec![Json::Object(vec![entry("k", twice.clone())])]);
    assert!(!deep.is_well_formed());
    assert_eq!(to_text(&deep), Err(CodecError::Unrepresentable));

    let sign = Json::Array(vec![Json::Number(JsonNumber::NegInt(3))]);
    assert!(!sign.is_well_formed());
    assert_eq!(to_text(&sign), Err(CodecError::Unrepresentable));

    let fine = Json::Object(vec![entry("a", Json::Null), entry("b", Json::Bool(true))]);
    assert!(fine.is_well_formed());
    assert_eq!(to_text(&fine).unwrap(), "{\"a\":null,\"b\":true}");
}

#[test]
fn numbers_know_their_one_form() {
    assert!(JsonNumber::PosInt(0).is_well_formed());
    assert!(JsonNumber::NegInt(-1).is_well_formed());
    assert!(!JsonNumber::NegInt(0).is_well_formed());
    assert!(!JsonNumber::NegInt(5).is_well_formed());
}

#[test]
fn lookup_tells_absent_once_and_repeated_apart() {
    let members = vec![
        entry("a", Json::Bool(true)),
        entry("b", Json::Null),
        entry("a", Json::Bool(false)),
        entry("", Json::Number(JsonNumber::PosInt(1))),
    ];
    assert_eq!(find(&members, "b"), Lookup::Once(&Json::Null));
    assert_eq!(find(&members, ""), Lookup::Once(&Json::Number(JsonNumber::PosInt(1))));
    assert_eq!(find(&members, "a"), Lookup::Repeated);
    assert_eq!(find(&members, "c"), Lookup::Absent);
    assert_eq!(find(&vec![], "a"), Lookup::Absent);
    assert!(!has_distinct_keys(&members));
    assert!(has_distinct_keys(&members[1..].to_vec()));
    assert!(has_distinct_keys(&vec![]));
}

#[test]
fn copies_are_equal_to_what_was_copied() {
    let json = from_text(b"{\"a\":[1,-2,1.5,\"x\",null,true,{\"b\":[]}]}").unwrap();
    let copy = json.clone();
    assert_eq!(copy, json);
    assert_eq!(to_text(&copy).unwrap(), "{\"a\":[1,-2,1.5,\"x\",null,true,{\"b\":[]}]}");
}

#[test]
fn what_was_read_can_be_written() {
    let text = "{\"b\":1,\"a\":{\"d\":[],\"c\":\"\\u00e9\"}}";
    let json = from_text(text.as_bytes()).unwrap();
    assert!(json.is_well_formed());
    assert_eq!(to_text(&json).unwrap(), "{\"b\":1,\"a\":{\"d\":[],\"c\":\"é\"}}");
}
