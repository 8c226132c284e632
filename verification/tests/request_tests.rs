use argonic::json::{JsonNumber, JsonValue};
use argonic::request::{Request, RequestId};

fn s(x: &str) -> JsonValue {
    JsonValue::Str(x.to_string())
}

fn n(x: u64) -> JsonValue {
    JsonValue::Number(JsonNumber::Uint(x))
}

fn arr(xs: Vec<JsonValue>) -> JsonValue {
    JsonValue::Array(xs)
}

fn obj(entries: Vec<(&str, JsonValue)>) -> JsonValue {
    JsonValue::Object(entries.into_iter().map(|(k, v)| (k.to_string(), v)).collect())
}

fn nums(xs: Vec<u64>) -> JsonValue {
    arr(xs.into_iter().map(JsonNumber::Uint).map(JsonValue::Number).collect())
}

#[test]
fn serialize_number_id() {
    assert_eq!(n(42), RequestId::Number(JsonNumber::Uint(42)).encode());
}

#[test]
fn serialize_string_id() {
    assert_eq!(s("abc"), RequestId::String("abc".to_string()).encode());
}

#[test]
fn serialize_null_id() {
    assert_eq!(JsonValue::Null, RequestId::Null.encode());
}

#[test]
fn deserialize_number_id() {
    assert_eq!(
        RequestId::Number(JsonNumber::Uint(42)),
        RequestId::decode(&n(42)).unwrap()
    );
}

#[test]
fn deserialize_string_id() {
    assert_eq!(
        RequestId::String("abc".to_string()),
        RequestId::decode(&s("abc")).unwrap()
    );
}

#[test]
fn deserialize_float_id() {
    let bits = (42.5f64).to_bits();
    assert_eq!(
        RequestId::Number(JsonNumber::Float(bits)),
        RequestId::decode(&JsonValue::Number(JsonNumber::Float(bits))).unwrap()
    );
}

#[test]
fn deserialize_null_id() {
    assert_eq!(RequestId::Null, RequestId::decode(&JsonValue::Null).unwrap());
}

#[test]
fn reject_array() {
    assert!(RequestId::decode(&nums(vec![1, 2, 3])).is_err());
}

#[test]
fn reject_object() {
    assert!(RequestId::decode(&obj(vec![("id", n(1))])).is_err());
}

#[test]
fn reject_boolean() {
    assert!(RequestId::decode(&JsonValue::Bool(true)).is_err());
}

#[test]
fn deserialize_valid_request() {
    let json = obj(vec![
        ("jsonrpc", s("2.0")),
        ("method", s("subtract")),
        ("params", nums(vec![42, 23])),
        ("id", n(1)),
    ]);

    let request = Request::decode(&json).unwrap();
    assert_eq!(request.method, "subtract");
    assert_eq!(request.params, Some(nums(vec![42, 23])));
    assert_eq!(request.id, RequestId::Number(JsonNumber::Uint(1)));
}

#[test]
fn deserialize_request_without_params() {
    let json = obj(vec![("jsonrpc", s("2.0")), ("method", s("ping")), ("id", n(1))]);

    let request = Request::decode(&json).unwrap();
    assert_eq!(request.method, "ping");
    assert_eq!(request.params, None);
    assert_eq!(request.id, RequestId::Number(JsonNumber::Uint(1)));
}

#[test]
fn reject_request_without_version() {
    let json = obj(vec![
        ("method", s("subtract")),
        ("params", nums(vec![42, 23])),
        ("id", n(1)),
    ]);

    assert!(Request::decode(&json).is_err());
}

#[test]
fn reject_request_with_wrong_version() {
    let json = obj(vec![
        ("jsonrpc", s("1.0")),
        ("method", s("subtract")),
        ("params", nums(vec![42, 23])),
        ("id", n(1)),
    ]);

    assert!(Request::decode(&json).is_err());
}

#[test]
fn reject_request_without_method() {
    let json = obj(vec![
        ("jsonrpc", s("2.0")),
        ("params", nums(vec![42, 23])),
        ("id", n(1)),
    ]);

    assert!(Request::decode(&json).is_err());
}

#[test]
fn reject_request_without_id() {
    let json = obj(vec![
        ("jsonrpc", s("2.0")),
        ("method", s("subtract")),
        ("params", nums(vec![42, 23])),
    ]);

    assert!(Request::decode(&json).is_err());
}

#[test]
fn serialize_request_with_params() {
    let request = Request {
        method: "subtract".to_string(),
        params: Some(nums(vec![42, 23])),
        id: RequestId::Number(JsonNumber::Uint(1)),
    };

    assert_eq!(
        obj(vec![
            ("jsonrpc", s("2.0")),
            ("method", s("subtract")),
            ("params", nums(vec![42, 23])),
            ("id", n(1)),
        ]),
        request.encode()
    );
}

#[test]
fn serialize_request_without_params() {
    let request = Request {
        method: "ping".to_string(),
        params: None,
        id: RequestId::Number(JsonNumber::Uint(1)),
    };

    assert_eq!(
        obj(vec![("jsonrpc", s("2.0")), ("method", s("ping")), ("id", n(1))]),
        request.encode()
    );
}
