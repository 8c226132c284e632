use argonic::json::{JsonNumber, JsonValue};
use argonic::notification::Notification;

fn s(x: &str) -> JsonValue {
    JsonValue::Str(x.to_string())
}

fn n(x: u64) -> JsonValue {
    JsonValue::Number(JsonNumber::Uint(x))
}

fn arr(xs: Vec<JsonValue>) -> JsonValue {
    JsonValue::Array(xs)
}

fn obj(entries: Vec<(&str, JsonValue)>) -> JsonValue {
    JsonValue::Object(entries.into_iter().map(|(k, v)| (k.to_string(), v)).collect())
}

fn nums(xs: Vec<u64>) -> JsonValue {
    arr(xs.into_iter().map(JsonNumber::Uint).map(JsonValue::Number).collect())
}

#[test]
fn serialize_notification_with_params() {
    let notification = Notification {
        method: "update".to_string(),
        params: Some(nums(vec![1, 2, 3])),
    };

    assert_eq!(
        obj(vec![
            ("jsonrpc", s("2.0")),
            ("method", s("update")),
            ("params", nums(vec![1, 2, 3])),
        ]),
        notification.encode()
    );
}

#[test]
fn serialize_notification_without_params() {
    let notification = Notification { method: "update".to_string(), params: None };

    assert_eq!(
        obj(vec![("jsonrpc", s("2.0")), ("method", s("update"))]),
        notification.encode()
    );
}

#[test]
fn deserialize_valid_notification() {
    let json = obj(vec![
        ("jsonrpc", s("2.0")),
        ("method", s("update")),
        ("params", nums(vec![1, 2, 3])),
    ]);

    let notification = Notification::decode(&json).unwrap();
    assert_eq!(notification.method, "update");
    assert_eq!(notification.params, Some(nums(vec![1, 2, 3])));
}

#[test]
fn deserialize_notification_without_params() {
    let json = obj(vec![("jsonrpc", s("2.0")), ("method", s("update"))]);

    let notification = Notification::decode(&json).unwrap();
    assert_eq!(notification.method, "update");
    assert_eq!(notification.params, None);
}

#[test]
fn reject_notification_without_version() {
    let json = obj(vec![("method", s("update")), ("params", nums(vec![1, 2, 3]))]);

    assert!(Notification::decode(&json).is_err());
}

#[test]
fn reject_notification_with_wrong_version() {
    let json = obj(vec![
        ("jsonrpc", s("1.0")),
        ("method", s("update")),
        ("params", nums(vec![1, 2, 3])),
    ]);

    assert!(Notification::decode(&json).is_err());
}

#[test]
fn reject_notification_without_method() {
    let json = obj(vec![("jsonrpc", s("2.0")), ("params", nums(vec![1, 2, 3]))]);

    assert!(Notification::decode(&json).is_err());
}

#[test]
fn reject_notification_with_id() {
    let json = obj(vec![
        ("jsonrpc", s("2.0")),
        ("method", s("update")),
        ("params", nums(vec![1, 2, 3])),
        ("id", n(1)),
    ]);

    assert!(Notification::decode(&json).is_err());
}
