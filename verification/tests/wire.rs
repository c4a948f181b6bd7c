//! Tests for the trusted boundary: JSON text parsing into the library's
//! model, and the socket URL rewrite.

use furbooru::json::{i64_vec, string_vec, JsonValue};
use furbooru::session::{heartbeat_interval_secs, socket_url};
use furbooru::wire::parse_json_text;

#[test]
fn parse_lifts_every_shape() {
    let v = parse_json_text(r#"[null,true,7,-3,1.5,"hi",{"k":"v"}]"#).expect("valid JSON");
    let items = match v {
        JsonValue::Arr(items) => items,
        _ => panic!("array did not parse to an array"),
    };
    assert_eq!(items.len(), 7);
    assert!(matches!(items[0], JsonValue::Null));
    assert!(matches!(items[1], JsonValue::Bool(true)));
    assert!(matches!(items[2], JsonValue::UInt(7)));
    assert!(matches!(items[3], JsonValue::Int(-3)));
    assert!(matches!(items[4], JsonValue::Float(ref t) if t == "1.5"));
    assert!(matches!(items[5], JsonValue::Str(ref t) if t == "hi"));
    match &items[6] {
        JsonValue::Obj(fields) => {
            assert_eq!(fields.len(), 1);
            assert_eq!(fields[0].key, "k");
            assert!(matches!(fields[0].value, JsonValue::Str(ref t) if t == "v"));
        },
        _ => panic!("object did not parse to an object"),
    }
}

#[test]
fn parse_rejects_invalid_text() {
    assert!(parse_json_text("").is_none());
    assert!(parse_json_text("not json").is_none());
    assert!(parse_json_text("[1,").is_none());
    assert!(parse_json_text("{\"a\":}").is_none());
}

#[test]
fn parse_keeps_number_kinds_apart() {
    let v = parse_json_text("[0,18446744073709551615,-9223372036854775808,1e30]")
        .expect("valid JSON");
    let items = match v {
        JsonValue::Arr(items) => items,
        _ => panic!("array did not parse to an array"),
    };
    assert!(matches!(items[0], JsonValue::UInt(0)));
    assert!(matches!(items[1], JsonValue::UInt(u64::MAX)));
    assert!(matches!(items[2], JsonValue::Int(i64::MIN)));
    assert!(matches!(items[3], JsonValue::Float(_)));
}

#[test]
fn socket_url_forces_the_secure_scheme() {
    let url = socket_url("https://example.com/").expect("a well-formed base URL");
    assert_eq!(url, "wss://example.com/socket/websocket?vsn=2.0.0");
    let from_http = socket_url("http://example.com/").expect("a well-formed base URL");
    assert_eq!(from_http, "wss://example.com/socket/websocket?vsn=2.0.0");
}

#[test]
fn socket_url_rejects_what_is_no_url() {
    assert!(socket_url("not a url").is_none());
}

#[test]
fn heartbeat_interval_is_thirty_seconds() {
    assert_eq!(heartbeat_interval_secs(), 30);
}

#[test]
fn string_and_number_arrays() {
    let strings = vec![JsonValue::Str("a".to_owned()), JsonValue::Str("b".to_owned())];
    assert_eq!(string_vec(&strings), Some(vec!["a".to_owned(), "b".to_owned()]));
    let mixed = vec![JsonValue::Str("a".to_owned()), JsonValue::UInt(1)];
    assert_eq!(string_vec(&mixed), None);
    let numbers = vec![JsonValue::UInt(1), JsonValue::Int(-2)];
    assert_eq!(i64_vec(&numbers), Some(vec![1, -2]));
    let too_big = vec![JsonValue::UInt(u64::MAX)];
    assert_eq!(i64_vec(&too_big), None);
}
