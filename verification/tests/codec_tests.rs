use argonic::error::{DecodeError, FieldName};
use argonic::json::{JsonNumber, JsonValue};
use argonic::notification::Notification;
use argonic::request::{Request, RequestId};
use argonic::response::{ErrorCode, Response, ResponseError, ResponseResult};
use argonic::server::ServerBuilder;
use argonic::transport::Message;

fn s(x: &str) -> JsonValue {
    JsonValue::Str(x.to_string())
}

fn n(x: u64) -> JsonValue {
    JsonValue::Number(JsonNumber::Uint(x))
}

fn neg(x: i64) -> JsonValue {
    JsonValue::Number(JsonNumber::Int(x))
}

fn arr(xs: Vec<JsonValue>) -> JsonValue {
    JsonValue::Array(xs)
}

fn obj(entries: Vec<(&str, JsonValue)>) -> JsonValue {
    JsonValue::Object(entries.into_iter().map(|(k, v)| (k.to_string(), v)).collect())
}

#[test]
fn named_codes_map_to_their_integers() {
    assert_eq!(i64::from(ErrorCode::ParseError), -32700);
    assert_eq!(i64::from(ErrorCode::InvalidRequest), -32600);
    assert_eq!(i64::from(ErrorCode::MethodNotFound), -32601);
    assert_eq!(i64::from(ErrorCode::InvalidParams), -32602);
    assert_eq!(i64::from(ErrorCode::InternalError), -32603);
}

#[test]
fn named_codes_round_trip_through_their_integers() {
    for code in [
        ErrorCode::ParseError,
        ErrorCode::InvalidRequest,
        ErrorCode::MethodNotFound,
        ErrorCode::InvalidParams,
        ErrorCode::InternalError,
    ] {
        assert_eq!(ErrorCode::from(i64::from(code)), code);
    }
}

#[test]
fn band_and_application_codes_round_trip() {
    assert_eq!(ErrorCode::from(-32050i64), ErrorCode::ServerError(-32050));
    assert_eq!(i64::from(ErrorCode::ServerError(-32050)), -32050);
    assert_eq!(ErrorCode::from(42i64), ErrorCode::ApplicationError(42));
    assert_eq!(i64::from(ErrorCode::ApplicationError(42)), 42);
    assert_eq!(ErrorCode::from(0i64), ErrorCode::ApplicationError(0));
}

#[test]
fn band_bounds_are_exclusive() {
    assert_eq!(ErrorCode::from(-32000i64), ErrorCode::ApplicationError(-32000));
    assert_eq!(ErrorCode::from(-32099i64), ErrorCode::ApplicationError(-32099));
    assert_eq!(ErrorCode::from(-32001i64), ErrorCode::ServerError(-32001));
    assert_eq!(ErrorCode::from(-32098i64), ErrorCode::ServerError(-32098));
}

#[test]
fn request_round_trips_through_encode_and_decode() {
    let request = Request {
        method: "subtract".to_string(),
        params: Some(arr(vec![n(42), n(23)])),
        id: RequestId::String("a1".to_string()),
    };
    assert_eq!(Request::decode(&request.encode()).unwrap(), request);
}

#[test]
fn notification_round_trips_through_encode_and_decode() {
    let notification = Notification { method: "update".to_string(), params: None };
    assert_eq!(Notification::decode(&notification.encode()).unwrap(), notification);
}

#[test]
fn response_round_trips_through_encode_and_decode() {
    let response = Response {
        id: RequestId::Null,
        result: ResponseResult::Failure(ResponseError {
            code: ErrorCode::ServerError(-32042),
            message: "backend down".to_string(),
            data: Some(s("details")),
        }),
    };
    assert_eq!(Response::decode(&response.encode()).unwrap(), response);
}

#[test]
fn batch_message_round_trips_and_keeps_order() {
    let first = Request {
        method: "a".to_string(),
        params: None,
        id: RequestId::Number(JsonNumber::Uint(1)),
    };
    let second = Request {
        method: "b".to_string(),
        params: None,
        id: RequestId::Number(JsonNumber::Uint(2)),
    };
    let message = Message::BatchRequest(vec![first.clone(), second.clone()]);
    match Message::decode(&message.encode()).unwrap() {
        Message::BatchRequest(requests) => {
            assert_eq!(requests, vec![first, second]);
        },
        _ => panic!("expected BatchRequest variant"),
    }
}

#[test]
fn empty_array_decodes_to_empty_batch() {
    match Message::decode(&arr(vec![])).unwrap() {
        Message::BatchRequest(requests) => assert_eq!(requests.len(), 0),
        _ => panic!("expected BatchRequest variant"),
    }
}

#[test]
fn missing_version_is_a_distinct_missing_field() {
    let json = obj(vec![("method", s("update"))]);
    assert_eq!(
        Notification::decode(&json).unwrap_err(),
        DecodeError::MissingField(FieldName::JsonRpc)
    );
}

#[test]
fn wrong_version_reports_the_value() {
    let json = obj(vec![("jsonrpc", s("1.0")), ("method", s("update"))]);
    assert_eq!(
        Notification::decode(&json).unwrap_err(),
        DecodeError::InvalidVersion("1.0".to_string())
    );
}

#[test]
fn id_on_a_notification_is_forbidden_not_unknown() {
    let json = obj(vec![("jsonrpc", s("2.0")), ("method", s("update")), ("id", n(1))]);
    assert_eq!(
        Notification::decode(&json).unwrap_err(),
        DecodeError::ForbiddenField(FieldName::Id)
    );
}

#[test]
fn unknown_field_reports_the_key() {
    let json = obj(vec![("jsonrpc", s("2.0")), ("method", s("update")), ("extra", n(1))]);
    assert_eq!(
        Notification::decode(&json).unwrap_err(),
        DecodeError::UnknownField("extra".to_string())
    );
}

#[test]
fn repeated_key_is_a_duplicate_field() {
    let json = obj(vec![
        ("jsonrpc", s("2.0")),
        ("method", s("update")),
        ("method", s("again")),
    ]);
    assert_eq!(
        Notification::decode(&json).unwrap_err(),
        DecodeError::DuplicateField(FieldName::Method)
    );
}

#[test]
fn missing_id_on_a_request_is_reported() {
    let json = obj(vec![("jsonrpc", s("2.0")), ("method", s("ping"))]);
    assert_eq!(
        Request::decode(&json).unwrap_err(),
        DecodeError::MissingField(FieldName::Id)
    );
}

#[test]
fn non_finite_float_id_is_rejected() {
    let bits = f64::NAN.to_bits();
    assert_eq!(
        RequestId::decode(&JsonValue::Number(JsonNumber::Float(bits))).unwrap_err(),
        DecodeError::TypeMismatch
    );
    let inf = f64::INFINITY.to_bits();
    assert!(RequestId::decode(&JsonValue::Number(JsonNumber::Float(inf))).is_err());
}

#[test]
fn finite_float_id_is_accepted() {
    let bits = (1.5f64).to_bits();
    assert_eq!(
        RequestId::decode(&JsonValue::Number(JsonNumber::Float(bits))).unwrap(),
        RequestId::Number(JsonNumber::Float(bits))
    );
}

#[test]
fn float_error_code_is_a_type_mismatch() {
    let json = obj(vec![
        ("code", JsonValue::Number(JsonNumber::Float((1.5f64).to_bits()))),
        ("message", s("oops")),
    ]);
    assert_eq!(ResponseError::decode(&json).unwrap_err(), DecodeError::TypeMismatch);
}

#[test]
fn both_result_and_error_conflict() {
    let json = obj(vec![
        ("jsonrpc", s("2.0")),
        ("id", n(1)),
        ("result", n(19)),
        (
            "error",
            obj(vec![("code", neg(-32603)), ("message", s("boom")), ("data", JsonValue::Null)]),
        ),
    ]);
    assert_eq!(Response::decode(&json).unwrap_err(), DecodeError::ConflictingFields);
}

#[test]
fn neither_result_nor_error_conflicts() {
    let json = obj(vec![("jsonrpc", s("2.0")), ("id", n(1))]);
    assert_eq!(Response::decode(&json).unwrap_err(), DecodeError::ConflictingFields);
}

#[test]
fn unmatched_payload_matches_no_variant() {
    assert_eq!(
        Message::decode(&JsonValue::Bool(true)).unwrap_err(),
        DecodeError::NoMatchingVariant
    );
    assert_eq!(
        Message::decode(&obj(vec![])).unwrap_err(),
        DecodeError::NoMatchingVariant
    );
}

#[test]
fn batch_with_a_bad_element_matches_no_variant() {
    let good = obj(vec![("jsonrpc", s("2.0")), ("method", s("a")), ("id", n(1))]);
    let bad = obj(vec![("jsonrpc", s("2.0")), ("method", s("b"))]);
    assert_eq!(
        Message::decode(&arr(vec![good, bad])).unwrap_err(),
        DecodeError::NoMatchingVariant
    );
}

#[test]
fn error_data_null_is_normalized_away_but_explicit_data_kept() {
    let with_null = obj(vec![
        ("code", neg(-32601)),
        ("message", s("Method not found")),
        ("data", JsonValue::Null),
    ]);
    assert_eq!(ResponseError::decode(&with_null).unwrap().data, None);

    let without_data = obj(vec![("code", neg(-32601)), ("message", s("Method not found"))]);
    assert_eq!(ResponseError::decode(&without_data).unwrap().data, None);
}

#[test]
fn explicit_null_data_is_the_round_trip_exception() {
    // Encode always emits `data` (null when absent) while decode
    // normalizes an explicit null to absent, so a payload constructed
    // with `data: Some(null)` comes back with data absent.
    let error = ResponseError {
        code: ErrorCode::ApplicationError(7),
        message: "odd".to_string(),
        data: Some(JsonValue::Null),
    };
    let decoded = ResponseError::decode(&error.encode()).unwrap();
    assert_eq!(decoded.code, error.code);
    assert_eq!(decoded.message, error.message);
    assert_eq!(decoded.data, None);
}

#[test]
fn server_builder_builds() {
    let _server = ServerBuilder::new().build();
    let _other = ServerBuilder::default().build();
}
