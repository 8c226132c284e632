use argonic::json::{JsonNumber, JsonValue};
use argonic::request::Request;
use argonic::response::Response;
use argonic::notification::Notification;
use argonic::transport::Message;

fn s(x: &str) -> JsonValue {
    JsonValue::Str(x.to_string())
}

fn n(x: u64) -> JsonValue {
    JsonValue::Number(JsonNumber::Uint(x))
}

fn arr(xs: Vec<JsonValue>) -> JsonValue {
    JsonValue::Array(xs)
}

fn obj(entries: Vec<(&str, JsonValue)>) -> JsonValue {
    JsonValue::Object(entries.into_iter().map(|(k, v)| (k.to_string(), v)).collect())
}

fn nums(xs: Vec<u64>) -> JsonValue {
    arr(xs.into_iter().map(JsonNumber::Uint).map(JsonValue::Number).collect())
}

fn subtract_request(id: u64) -> JsonValue {
    obj(vec![
        ("jsonrpc", s("2.0")),
        ("method", s("subtract")),
        ("params", nums(vec![42, 23])),
        ("id", n(id)),
    ])
}

#[test]
fn deserialize_request() {
    let json = subtract_request(1);

    match Message::decode(&json).unwrap() {
        Message::Request(_) => {},
        _ => panic!("expected Request variant"),
    }
}

#[test]
fn deserialize_notification() {
    let json = obj(vec![
        ("jsonrpc", s("2.0")),
        ("method", s("update")),
        ("params", nums(vec![1, 2, 3])),
    ]);

    match Message::decode(&json).unwrap() {
        Message::Notification(_) => {},
        _ => panic!("expected Notification variant"),
    }
}

#[test]
fn deserialize_response() {
    let json = obj(vec![("jsonrpc", s("2.0")), ("id", n(1)), ("result", n(19))]);

    match Message::decode(&json).unwrap() {
        Message::Response(_) => {},
        _ => panic!("expected Response variant"),
    }
}

#[test]
fn deserialize_batch_request() {
    let json = arr(vec![subtract_request(1), subtract_request(2)]);

    match Message::decode(&json).unwrap() {
        Message::BatchRequest(requests) => assert_eq!(requests.len(), 2),
        _ => panic!("expected BatchRequest variant"),
    }
}

#[test]
fn serialize_request() {
    let json = subtract_request(1);

    let request = Request::decode(&json).unwrap();
    let message = Message::Request(request);
    assert_eq!(json, message.encode());
}

#[test]
fn serialize_notification() {
    let json = obj(vec![
        ("jsonrpc", s("2.0")),
        ("method", s("update")),
        ("params", nums(vec![1, 2, 3])),
    ]);

    let notification = Notification::decode(&json).unwrap();
    let message = Message::Notification(notification);
    assert_eq!(json, message.encode());
}

#[test]
fn serialize_response() {
    let json = obj(vec![("jsonrpc", s("2.0")), ("id", n(1)), ("result", n(19))]);

    let response = Response::decode(&json).unwrap();
    let message = Message::Response(response);
    assert_eq!(json, message.encode());
}

#[test]
fn serialize_batch_request() {
    let json = arr(vec![subtract_request(1), subtract_request(2)]);

    let requests = vec![
        Request::decode(&subtract_request(1)).unwrap(),
        Request::decode(&subtract_request(2)).unwrap(),
    ];
    let message = Message::BatchRequest(requests);
    assert_eq!(json, message.encode());
}
