use argonic::json::{JsonNumber, JsonValue};
use argonic::request::RequestId;
use argonic::response::{ErrorCode, Response, ResponseError, ResponseResult};

fn s(x: &str) -> JsonValue {
    JsonValue::Str(x.to_string())
}

fn n(x: u64) -> JsonValue {
    JsonValue::Number(JsonNumber::Uint(x))
}

fn neg(x: i64) -> JsonValue {
    JsonValue::Number(JsonNumber::Int(x))
}

fn obj(entries: Vec<(&str, JsonValue)>) -> JsonValue {
    JsonValue::Object(entries.into_iter().map(|(k, v)| (k.to_string(), v)).collect())
}

#[test]
fn test_ok_serialization() {
    assert_eq!(
        obj(vec![("jsonrpc", s("2.0")), ("id", n(1)), ("result", obj(vec![]))]),
        Response {
            id: RequestId::Number(JsonNumber::Uint(1)),
            result: ResponseResult::Success(obj(vec![])),
        }
        .encode()
    );
}

#[test]
fn test_err_serialization() {
    assert_eq!(
        obj(vec![
            ("jsonrpc", s("2.0")),
            ("id", n(1)),
            (
                "error",
                obj(vec![
                    ("code", neg(-32601)),
                    ("message", s("Method not found")),
                    ("data", JsonValue::Null),
                ]),
            ),
        ]),
        Response {
            id: RequestId::Number(JsonNumber::Uint(1)),
            result: ResponseResult::Failure(ResponseError {
                code: ErrorCode::MethodNotFound,
                message: "Method not found".to_string(),
                data: None,
            }),
        }
        .encode()
    );
}

#[test]
fn test_error_deserialization() {
    let json = obj(vec![
        ("code", neg(-32601)),
        ("message", s("Method not found")),
        ("data", JsonValue::Null),
    ]);

    let error = ResponseError::decode(&json).unwrap();
    assert_eq!(error.code, ErrorCode::MethodNotFound);
    assert_eq!(error.message, "Method not found");
    assert_eq!(error.data, None);
}

#[test]
fn test_error_deserialization_with_data() {
    let json = obj(vec![
        ("code", neg(-32602)),
        ("message", s("Invalid params")),
        ("data", obj(vec![("missing", s("id"))])),
    ]);

    let error = ResponseError::decode(&json).unwrap();
    assert_eq!(error.code, ErrorCode::InvalidParams);
    assert_eq!(error.message, "Invalid params");
    assert_eq!(error.data, Some(obj(vec![("missing", s("id"))])));
}

#[test]
fn reject_error_without_code() {
    let json = obj(vec![("message", s("Method not found")), ("data", JsonValue::Null)]);

    assert!(ResponseError::decode(&json).is_err());
}

#[test]
fn reject_error_without_message() {
    let json = obj(vec![("code", neg(-32601)), ("data", JsonValue::Null)]);

    assert!(ResponseError::decode(&json).is_err());
}

#[test]
fn test_ok_response_deserialization() {
    let json = obj(vec![
        ("jsonrpc", s("2.0")),
        ("id", n(1)),
        ("result", obj(vec![("status", s("success"))])),
    ]);

    let response = Response::decode(&json).unwrap();
    assert_eq!(response.id, RequestId::Number(JsonNumber::Uint(1)));
    match response.result {
        ResponseResult::Success(value) => {
            assert_eq!(value, obj(vec![("status", s("success"))]))
        },
        ResponseResult::Failure(_) => panic!("expected Ok result"),
    }
}

#[test]
fn test_error_response_deserialization() {
    let json = obj(vec![
        ("jsonrpc", s("2.0")),
        ("id", n(1)),
        (
            "error",
            obj(vec![
                ("code", neg(-32601)),
                ("message", s("Method not found")),
                ("data", JsonValue::Null),
            ]),
        ),
    ]);

    let response = Response::decode(&json).unwrap();
    assert_eq!(response.id, RequestId::Number(JsonNumber::Uint(1)));
    match response.result {
        ResponseResult::Failure(error) => {
            assert_eq!(error.code, ErrorCode::MethodNotFound);
            assert_eq!(error.message, "Method not found");
            assert_eq!(error.data, None);
        },
        ResponseResult::Success(_) => panic!("expected Err result"),
    }
}

#[test]
fn reject_response_without_version() {
    let json = obj(vec![("id", n(1)), ("result", obj(vec![]))]);

    assert!(Response::decode(&json).is_err());
}

#[test]
fn reject_response_with_wrong_version() {
    let json = obj(vec![("jsonrpc", s("1.0")), ("id", n(1)), ("result", obj(vec![]))]);

    assert!(Response::decode(&json).is_err());
}

#[test]
fn reject_response_without_id() {
    let json = obj(vec![("jsonrpc", s("2.0")), ("result", obj(vec![]))]);

    assert!(Response::decode(&json).is_err());
}

#[test]
fn reject_response_with_both_result_and_error() {
    let json = obj(vec![
        ("jsonrpc", s("2.0")),
        ("id", n(1)),
        ("result", obj(vec![])),
        (
            "error",
            obj(vec![
                ("code", neg(-32601)),
                ("message", s("Method not found")),
                ("data", JsonValue::Null),
            ]),
        ),
    ]);

    assert!(Response::decode(&json).is_err());
}

#[test]
fn reject_response_without_result_or_error() {
    let json = obj(vec![("jsonrpc", s("2.0")), ("id", n(1))]);

    assert!(Response::decode(&json).is_err());
}
