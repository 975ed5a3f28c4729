use jason::http::Endpoint;
use jason::wire::{decode_response, encode_request};
use jason::{CodecError, Json, JsonNumber, Member, ProtocolVersion, Request, RequestId, ResultRes};

#[test]
fn it_works() {
    let reply = "{\"jsonrpc\":\"2.0\",\"id\":\"1\",\"result\":7}";

    let c = Endpoint::new("http://127.0.0.1:3000").expect("failed to create client");

    let post = c
        .post(&Request {
            jsonrpc: ProtocolVersion::TwoPointO,
            id: RequestId::String("1".to_string()),
            method: "some_method".to_string(),
            params: Json::Null,
        })
        .expect("test request failed");
    assert_eq!(
        post.body,
        "{\"jsonrpc\":\"2.0\",\"id\":\"1\",\"method\":\"some_method\",\"params\":null}"
    );

    let res = decode_response(reply.as_bytes()).expect("test request failed");

    assert_eq!(
        res.into_result(),
        Ok(ResultRes {
            jsonrpc: ProtocolVersion::TwoPointO,
            id: RequestId::String("1".to_string()),
            result: Json::Number(JsonNumber::PosInt(7)),
        })
    );
}

#[test]
fn post_carries_the_headers_and_the_address() {
    let endpoint = Endpoint::new("http://127.0.0.1:3000/rpc").unwrap();
    let request = Request {
        jsonrpc: ProtocolVersion::TwoPointO,
        id: RequestId::Number(9),
        method: "m".to_string(),
        params: Json::Array(vec![]),
    };
    let post = endpoint.post(&request).unwrap();
    assert_eq!(post.content_type, "application/json");
    assert_eq!(post.user_agent, "jason.rs/0.1.0");
    assert_eq!(post.uri.to_string(), "http://127.0.0.1:3000/rpc");
    let parsed: hyper::Uri = "http://127.0.0.1:3000/rpc".parse().unwrap();
    assert_eq!(endpoint.uri(), &parsed);
    assert_eq!(post.uri, &parsed);
    assert_eq!(endpoint.uri().path(), "/rpc");
    assert_eq!(post.body, encode_request(&request).unwrap());
}

#[test]
fn malformed_addresses_are_refused_at_once() {
    assert_eq!(Endpoint::new("").unwrap_err().cause.to_string(), "empty string");
    assert!(Endpoint::new("http://[::1").is_err());
    assert_eq!(
        Endpoint::new("http://a b/").unwrap_err().cause.to_string(),
        "invalid uri character"
    );
    assert!(Endpoint::new("http://localhost:8545").is_ok());
}

#[test]
fn requests_that_cannot_be_written_are_not_sent() {
    let endpoint = Endpoint::new("http://localhost/").unwrap();
    let request = Request {
        jsonrpc: ProtocolVersion::TwoPointO,
        id: RequestId::Number(9),
        method: "m".to_string(),
        params: Json::Object(vec![
            Member { key: "k".to_string(), value: Json::Null },
            Member { key: "k".to_string(), value: Json::Null },
        ]),
    };
    assert_eq!(encode_request(&request), Err(CodecError::Unrepresentable));
    assert_eq!(endpoint.post(&request).err(), Some(CodecError::Unrepresentable));
}
