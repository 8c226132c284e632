//! Responses: the reply to a request, carrying exactly one of a result
//! or an error object, and the error-code space.
//!
//! The error-code space is partitioned into five named reserved codes,
//! a reserved server-error band, and open application-defined codes;
//! the mapping to and from a plain integer is total in both directions.

use vstd::prelude::*;

use crate::error::{DecodeError, DecodeErrorV, FieldName};
use crate::json::{string_is, JsonNumber, JsonValue, JsonValueV};
use crate::request::{RequestId, RequestIdV};

verus! {

/// A JSON-RPC 2.0 error code.
#[derive(Debug, Clone, Copy, PartialEq, Eq, Structural)]
pub enum ErrorCode {
    /// Invalid JSON was received by the server.
    ParseError,
    /// The JSON sent is not a valid request object.
    InvalidRequest,
    /// The method does not exist / is not available.
    MethodNotFound,
    /// Invalid method parameter(s).
    InvalidParams,
    /// Internal JSON-RPC error.
    InternalError,
    /// An implementation-defined server error, carrying its integer.
    ServerError(i64),
    /// A code defined by the application, carrying its integer.
    ApplicationError(i64),
}

impl ErrorCode {
    /// The integer a code maps to: the named codes map to their
    /// reserved values, the carrying variants to their integer.
    pub open spec fn spec_to_i64(self) -> i64 {
        match self {
            ErrorCode::ParseError => -32700i64,
            ErrorCode::InvalidRequest => -32600i64,
            ErrorCode::MethodNotFound => -32601i64,
            ErrorCode::InvalidParams => -32602i64,
            ErrorCode::InternalError => -32603i64,
            ErrorCode::ServerError(code) => code,
            ErrorCode::ApplicationError(code) => code,
        }
    }

    /// The code an integer maps to: total, never fails.  The bounds of
    /// the server-error band are deliberately exclusive, so -32099 and
    /// -32000 themselves classify as application-defined.
    pub open spec fn spec_from_i64(code: i64) -> ErrorCode {
        if code == -32700 {
            ErrorCode::ParseError
        } else if code == -32600 {
            ErrorCode::InvalidRequest
        } else if code == -32601 {
            ErrorCode::MethodNotFound
        } else if code == -32602 {
            ErrorCode::InvalidParams
        } else if code == -32603 {
            ErrorCode::InternalError
        } else if -32099 < code < -32000 {
            ErrorCode::ServerError(code)
        } else {
            ErrorCode::ApplicationError(code)
        }
    }

    /// A code is well formed when its carried integer, if any, lies in
    /// the variant's own range: inside the server-error band for
    /// `ServerError`, outside both the band and the named codes for
    /// `ApplicationError`.  Decoding only ever produces such codes.
    pub open spec fn is_wf(self) -> bool {
        match self {
            ErrorCode::ServerError(code) => -32099 < code < -32000,
            ErrorCode::ApplicationError(code) => !(code == -32700 || code == -32600 || code
                == -32601 || code == -32602 || code == -32603) && !(-32099 < code < -32000),
            _ => true,
        }
    }
}

impl View for ErrorCode {
    type V = ErrorCode;

    open spec fn view(&self) -> ErrorCode {
        *self
    }
}

impl DeepView for ErrorCode {
    type V = ErrorCode;

    open spec fn deep_view(&self) -> ErrorCode {
        *self
    }
}

impl From<ErrorCode> for i64 {
    /// The total mapping from a code to its integer.
    fn from(code: ErrorCode) -> (r: i64) {
        match code {
            ErrorCode::ParseError => -32700,
            ErrorCode::InvalidRequest => -32600,
            ErrorCode::MethodNotFound => -32601,
            ErrorCode::InvalidParams => -32602,
            ErrorCode::InternalError => -32603,
            ErrorCode::ServerError(code) => code,
            ErrorCode::ApplicationError(code) => code,
        }
    }
}

impl vstd::std_specs::convert::FromSpecImpl<ErrorCode> for i64 {
    open spec fn obeys_from_spec() -> bool {
        true
    }

    open spec fn from_spec(code: ErrorCode) -> i64 {
        code.spec_to_i64()
    }
}

impl From<i64> for ErrorCode {
    /// The total mapping from an integer to its code.
    fn from(code: i64) -> (r: ErrorCode) {
        if code == -32700 {
            ErrorCode::ParseError
        } else if code == -32600 {
            ErrorCode::InvalidRequest
        } else if code == -32601 {
            ErrorCode::MethodNotFound
        } else if code == -32602 {
            ErrorCode::InvalidParams
        } else if code == -32603 {
            ErrorCode::InternalError
        } else if -32099 < code && code < -32000 {
            ErrorCode::ServerError(code)
        } else {
            ErrorCode::ApplicationError(code)
        }
    }
}

impl vstd::std_specs::convert::FromSpecImpl<i64> for ErrorCode {
    open spec fn obeys_from_spec() -> bool {
        true
    }

    open spec fn from_spec(code: i64) -> ErrorCode {
        ErrorCode::spec_from_i64(code)
    }
}

/// The code mapping is idempotent: mapping a well-formed code to its
/// integer and back gives the code again.  This holds for the five
/// named codes unconditionally.
pub proof fn lemma_code_round_trip(code: ErrorCode)
    requires
        code.is_wf(),
    ensures
        ErrorCode::spec_from_i64(code.spec_to_i64()) == code,
{
}

/// In the other direction the mapping is inverse-consistent for every
/// integer, with no condition: the integer of the code an integer maps
/// to is that integer again.
pub proof fn lemma_integer_round_trip(code: i64)
    ensures
        ErrorCode::spec_from_i64(code).spec_to_i64() == code,
{
}

/// The code that any integer maps to is well formed.
pub proof fn lemma_from_i64_wf(code: i64)
    ensures
        ErrorCode::spec_from_i64(code).is_wf(),
{
}

/// The integer a JSON value holds, if it holds one: a non-negative
/// integer that fits, or a negative integer; floating-point values and
/// non-numbers hold none.
pub open spec fn json_to_i64(v: JsonValueV) -> Option<i64> {
    match v {
        JsonValueV::Number(JsonNumber::Uint(u)) => if u <= i64::MAX as u64 {
            Some(u as i64)
        } else {
            None
        },
        JsonValueV::Number(JsonNumber::Int(i)) => Some(i),
        _ => None,
    }
}

/// The JSON number denoting an integer: non-negative values use the
/// unsigned form, negative values the signed form.
pub open spec fn i64_to_json(n: i64) -> JsonValueV {
    if n >= 0 {
        JsonValueV::Number(JsonNumber::Uint(n as u64))
    } else {
        JsonValueV::Number(JsonNumber::Int(n))
    }
}

/// Read the integer a JSON value holds, if it holds one.
fn value_to_i64(v: &JsonValue) -> (r: Option<i64>)
    ensures
        r == json_to_i64(v@),
{
    match v {
        JsonValue::Number(JsonNumber::Uint(u)) => if *u <= i64::MAX as u64 {
            Some(*u as i64)
        } else {
            None
        },
        JsonValue::Number(JsonNumber::Int(i)) => Some(*i),
        _ => None,
    }
}

/// Emit the JSON number denoting an integer.
fn i64_to_value(n: i64) -> (r: JsonValue)
    ensures
        r@ == i64_to_json(n),
{
    if n >= 0 {
        JsonValue::Number(JsonNumber::Uint(n as u64))
    } else {
        JsonValue::Number(JsonNumber::Int(n))
    }
}

/// The mathematical model of a [`ResponseError`].
#[verifier::ext_equal]
pub struct ResponseErrorV {
    pub code: ErrorCode,
    pub message: Seq<char>,
    pub data: Option<JsonValueV>,
}

impl ResponseErrorV {
    /// An error payload is well formed when its code is and its data,
    /// if present, is not the JSON null (decoding normalizes an
    /// explicit null to absent).  Decoding only ever produces such
    /// payloads.
    pub open spec fn is_wf(self) -> bool {
        self.code.is_wf() && self.data != Some(JsonValueV::Null)
    }
}

/// The error object of a failed response: code, message, and optional
/// data.
#[derive(Debug, Clone, PartialEq)]
pub struct ResponseError {
    pub code: ErrorCode,
    pub message: String,
    pub data: Option<JsonValue>,
}

impl View for ResponseError {
    type V = ResponseErrorV;

    open spec fn view(&self) -> ResponseErrorV {
        ResponseErrorV {
            code: self.code,
            message: self.message@,
            data: self.data.deep_view(),
        }
    }
}

impl DeepView for ResponseError {
    type V = ResponseErrorV;

    open spec fn deep_view(&self) -> ResponseErrorV {
        self.view()
    }
}

/// What the scan over an error object has gathered so far.
pub struct ErrorObjectFields {
    pub code: Option<ErrorCode>,
    pub message: Option<Seq<char>>,
    pub data: Option<JsonValueV>,
}

/// The scan state before any entry has been read.
pub open spec fn error_scan_start() -> ErrorObjectFields {
    ErrorObjectFields { code: None, message: None, data: None }
}

/// How one object entry advances the scan of an error object.
pub open spec fn error_entry(
    st: ErrorObjectFields,
    k: Seq<char>,
    v: JsonValueV,
) -> Result<ErrorObjectFields, DecodeErrorV> {
    if k == "code"@ {
        if st.code is Some {
            Err(DecodeErrorV::DuplicateField(FieldName::Code))
        } else {
            match json_to_i64(v) {
                Some(n) => Ok(ErrorObjectFields { code: Some(ErrorCode::spec_from_i64(n)), ..st }),
                None => Err(DecodeErrorV::TypeMismatch),
            }
        }
    } else if k == "message"@ {
        if st.message is Some {
            Err(DecodeErrorV::DuplicateField(FieldName::Message))
        } else {
            match v {
                JsonValueV::Str(m) => Ok(ErrorObjectFields { message: Some(m), ..st }),
                _ => Err(DecodeErrorV::TypeMismatch),
            }
        }
    } else if k == "data"@ {
        if st.data is Some {
            Err(DecodeErrorV::DuplicateField(FieldName::Data))
        } else {
            Ok(ErrorObjectFields { data: Some(v), ..st })
        }
    } else {
        Err(DecodeErrorV::UnknownField(k))
    }
}

/// The scan over the entries of an error object from position `i` on.
pub open spec fn error_scan(
    es: Seq<(Seq<char>, JsonValueV)>,
    i: int,
    st: ErrorObjectFields,
) -> Result<ErrorObjectFields, DecodeErrorV>
    decreases es.len() - i,
{
    if i < 0 || i >= es.len() {
        Ok(st)
    } else {
        match error_entry(st, es[i].0, es[i].1) {
            Ok(st2) => error_scan(es, i + 1, st2),
            Err(e) => Err(e),
        }
    }
}

/// The required fields, checked once every entry has been read; a
/// `data` that is the JSON null is normalized to absent.
pub open spec fn error_finish(st: ErrorObjectFields) -> Result<ResponseErrorV, DecodeErrorV> {
    match st.code {
        None => Err(DecodeErrorV::MissingField(FieldName::Code)),
        Some(code) => match st.message {
            None => Err(DecodeErrorV::MissingField(FieldName::Message)),
            Some(m) => Ok(
                ResponseErrorV {
                    code: code,
                    message: m,
                    data: if st.data == Some(JsonValueV::Null) {
                        None
                    } else {
                        st.data
                    },
                },
            ),
        },
    }
}

impl ResponseError {
    /// What decoding an error object yields: required `code` (an
    /// integer, classified into the code space) and `message` (a
    /// string), optional `data` of any shape with an explicit null
    /// normalized to absent; repeated or unknown keys are rejected.
    pub open spec fn spec_decode(v: JsonValueV) -> Result<ResponseErrorV, DecodeErrorV> {
        match v {
            JsonValueV::Object(es) => match error_scan(es, 0, error_scan_start()) {
                Ok(st) => error_finish(st),
                Err(e) => Err(e),
            },
            _ => Err(DecodeErrorV::TypeMismatch),
        }
    }

    /// What encoding an error object yields: `code`, `message`, and
    /// `data` always, using null when absent.
    pub open spec fn spec_encode(p: ResponseErrorV) -> JsonValueV {
        JsonValueV::Object(
            seq![
                ("code"@, i64_to_json(p.code.spec_to_i64())),
                ("message"@, JsonValueV::Str(p.message)),
                (
                    "data"@,
                    match p.data {
                        Some(d) => d,
                        None => JsonValueV::Null,
                    },
                ),
            ],
        )
    }

    /// Resolve a JSON value into an error object.
    #[verifier::loop_isolation(false)]
    pub fn decode(v: &JsonValue) -> (r: Result<ResponseError, DecodeError>)
        ensures
            r matches Ok(p) ==> Self::spec_decode(v@) == Ok::<ResponseErrorV, DecodeErrorV>(p@),
            r matches Err(e) ==> Self::spec_decode(v@) == Err::<ResponseErrorV, DecodeErrorV>(e@),
    {
        let entries = match v {
            JsonValue::Object(entries) => entries,
            _ => {
                return Err(DecodeError::TypeMismatch);
            },
        };
        let ghost es = v@->Object_0;
        proof {
            assert(v@ == JsonValueV::Object(es));
        }
        let mut code: Option<ErrorCode> = None;
        let mut message: Option<String> = None;
        let mut data: Option<JsonValue> = None;
        let mut i: usize = 0;
        while i < entries.len()
            invariant
                i <= entries.len(),
                error_scan(es, 0, error_scan_start()) == error_scan(
                    es,
                    i as int,
                    ErrorObjectFields {
                        code: code.deep_view(),
                        message: message.deep_view(),
                        data: data.deep_view(),
                    },
                ),
            decreases entries.len() - i,
        {
            let ghost st = ErrorObjectFields {
                code: code.deep_view(),
                message: message.deep_view(),
                data: data.deep_view(),
            };
            proof {
                assert(es[i as int] == (entries@[i as int].0@, entries@[i as int].1.deep()));
            }
            let key: &String = &entries[i].0;
            let val: &JsonValue = &entries[i].1;
            if string_is(key, "code") {
                if code.is_some() {
                    return Err(DecodeError::DuplicateField(FieldName::Code));
                }
                match value_to_i64(val) {
                    Some(n) => {
                        code = Some(ErrorCode::from(n));
                    },
                    None => {
                        return Err(DecodeError::TypeMismatch);
                    },
                }
            } else if string_is(key, "message") {
                if message.is_some() {
                    return Err(DecodeError::DuplicateField(FieldName::Message));
                }
                match val {
                    JsonValue::Str(m) => {
                        message = Some(m.clone());
                    },
                    _ => {
                        return Err(DecodeError::TypeMismatch);
                    },
                }
            } else if string_is(key, "data") {
                if data.is_some() {
                    return Err(DecodeError::DuplicateField(FieldName::Data));
                }
                data = Some(val.clone());
            } else {
                return Err(DecodeError::UnknownField(key.clone()));
            }
            proof {
                assert(error_scan(es, i as int, st) == error_scan(
                    es,
                    i as int + 1,
                    ErrorObjectFields {
                        code: code.deep_view(),
                        message: message.deep_view(),
                        data: data.deep_view(),
                    },
                ));
            }
            i = i + 1;
        }
        let c = match code {
            Some(c) => c,
            None => {
                return Err(DecodeError::MissingField(FieldName::Code));
            },
        };
        let m = match message {
            Some(m) => m,
            None => {
                return Err(DecodeError::MissingField(FieldName::Message));
            },
        };
        let d = match data {
            Some(d) => {
                let is_null = match &d {
                    JsonValue::Null => true,
                    _ => false,
                };
                if is_null {
                    None
                } else {
                    Some(d)
                }
            },
            None => None,
        };
        Ok(ResponseError { code: c, message: m, data: d })
    }

    /// Emit the JSON object this error denotes.
    pub fn encode(&self) -> (r: JsonValue)
        ensures
            r@ == Self::spec_encode(self@),
    {
        let mut entries: Vec<(String, JsonValue)> = Vec::new();
        let n = match self.code {
            ErrorCode::ParseError => -32700,
            ErrorCode::InvalidRequest => -32600,
            ErrorCode::MethodNotFound => -32601,
            ErrorCode::InvalidParams => -32602,
            ErrorCode::InternalError => -32603,
            ErrorCode::ServerError(code) => code,
            ErrorCode::ApplicationError(code) => code,
        };
        entries.push(("code".to_owned(), i64_to_value(n)));
        entries.push(("message".to_owned(), JsonValue::Str(self.message.clone())));
        let d = match &self.data {
            Some(d) => d.clone(),
            None => JsonValue::Null,
        };
        entries.push(("data".to_owned(), d));
        let r = JsonValue::Object(entries);
        proof {
            let s1 = r@->Object_0;
            let s2 = Self::spec_encode(self@)->Object_0;
            assert(s1.len() == s2.len());
            assert(entries@[1].1.deep() == JsonValueV::Str(self.message@));
            assert(s1[0] == s2[0]);
            assert(s1[1] == s2[1]);
            if self@.data is Some {
                assert(s1[2] == s2[2]);
            } else {
                assert(entries@[2].1.deep() == JsonValueV::Null);
                assert(s1[2] == s2[2]);
            }
            assert(s1 =~= s2);
            assert(r@ == Self::spec_encode(self@));
        }
        r
    }
}

/// An error object round-trips: decoding what encode emitted gives the
/// payload back, for every well-formed payload.  (A payload whose data
/// is an explicit JSON null is not well formed: encode emits it as
/// null and decode normalizes that to absent.)
pub proof fn lemma_error_round_trip(p: ResponseErrorV)
    requires
        p.is_wf(),
    ensures
        ResponseError::spec_decode(ResponseError::spec_encode(p)) == Ok::<
            ResponseErrorV,
            DecodeErrorV,
        >(p),
{
    crate::error::lemma_keys_distinct();
    let es = ResponseError::spec_encode(p)->Object_0;
    let st0 = error_scan_start();
    let st1 = ErrorObjectFields {
        code: Some(ErrorCode::spec_from_i64(p.code.spec_to_i64())),
        ..st0
    };
    let st2 = ErrorObjectFields { message: Some(p.message), ..st1 };
    let st3 = ErrorObjectFields {
        data: Some(
            match p.data {
                Some(d) => d,
                None => JsonValueV::Null,
            },
        ),
        ..st2
    };
    assert(json_to_i64(i64_to_json(p.code.spec_to_i64())) == Some(p.code.spec_to_i64()));
    assert(error_scan(es, 3, st3) == Ok::<ErrorObjectFields, DecodeErrorV>(st3));
    assert(error_scan(es, 2, st2) == error_scan(es, 3, st3));
    assert(error_scan(es, 1, st1) == error_scan(es, 2, st2));
    assert(error_scan(es, 0, st0) == error_scan(es, 1, st1));
    lemma_code_round_trip(p.code);
    assert(error_finish(st3) matches Ok(q) && q =~= p);
}


/// The mathematical model of a [`ResponseResult`].
#[verifier::ext_equal]
pub enum ResponseResultV {
    Success(JsonValueV),
    Failure(ResponseErrorV),
}

/// The outcome a response carries: exactly one of a success payload or
/// an error object.
#[derive(Debug, Clone, PartialEq)]
pub enum ResponseResult {
    Success(JsonValue),
    Failure(ResponseError),
}

impl View for ResponseResult {
    type V = ResponseResultV;

    open spec fn view(&self) -> ResponseResultV {
        match self {
            ResponseResult::Success(v) => ResponseResultV::Success(v@),
            ResponseResult::Failure(p) => ResponseResultV::Failure(p@),
        }
    }
}

impl DeepView for ResponseResult {
    type V = ResponseResultV;

    open spec fn deep_view(&self) -> ResponseResultV {
        self.view()
    }
}

/// The mathematical model of a [`Response`].
#[verifier::ext_equal]
pub struct ResponseV {
    pub id: RequestIdV,
    pub result: ResponseResultV,
}

impl ResponseV {
    /// A response is well formed when its identifier is and its error
    /// payload, if that is the outcome, is.
    pub open spec fn is_wf(self) -> bool {
        self.id.is_wf() && match self.result {
            ResponseResultV::Success(_) => true,
            ResponseResultV::Failure(p) => p.is_wf(),
        }
    }
}

/// A correlatable reply: identifier and exactly one outcome.
#[derive(Debug, Clone, PartialEq)]
pub struct Response {
    pub id: RequestId,
    pub result: ResponseResult,
}

impl View for Response {
    type V = ResponseV;

    open spec fn view(&self) -> ResponseV {
        ResponseV { id: self.id@, result: self.result@ }
    }
}

impl DeepView for Response {
    type V = ResponseV;

    open spec fn deep_view(&self) -> ResponseV {
        self.view()
    }
}

/// What the scan over a response object has gathered so far.
pub struct ResponseFields {
    pub version_seen: bool,
    pub id: Option<RequestIdV>,
    pub result: Option<JsonValueV>,
    pub error: Option<ResponseErrorV>,
}

/// The scan state before any entry has been read.
pub open spec fn response_scan_start() -> ResponseFields {
    ResponseFields { version_seen: false, id: None, result: None, error: None }
}

/// How one object entry advances the scan of a response object:
/// `result` and `error` each reject a repetition of themselves, and
/// each rejects the other's earlier presence as a conflict.
pub open spec fn response_entry(
    st: ResponseFields,
    k: Seq<char>,
    v: JsonValueV,
) -> Result<ResponseFields, DecodeErrorV> {
    if k == "jsonrpc"@ {
        if st.version_seen {
            Err(DecodeErrorV::DuplicateField(FieldName::JsonRpc))
        } else {
            match v {
                JsonValueV::Str(s) => if s == "2.0"@ {
                    Ok(ResponseFields { version_seen: true, ..st })
                } else {
                    Err(DecodeErrorV::InvalidVersion(s))
                },
                _ => Err(DecodeErrorV::TypeMismatch),
            }
        }
    } else if k == "id"@ {
        if st.id is Some {
            Err(DecodeErrorV::DuplicateField(FieldName::Id))
        } else {
            match RequestId::spec_decode(v) {
                Ok(id) => Ok(ResponseFields { id: Some(id), ..st }),
                Err(e) => Err(e),
            }
        }
    } else if k == "result"@ {
        if st.result is Some {
            Err(DecodeErrorV::DuplicateField(FieldName::ResultField))
        } else if st.error is Some {
            Err(DecodeErrorV::ConflictingFields)
        } else {
            Ok(ResponseFields { result: Some(v), ..st })
        }
    } else if k == "error"@ {
        if st.error is Some {
            Err(DecodeErrorV::DuplicateField(FieldName::ErrorField))
        } else if st.result is Some {
            Err(DecodeErrorV::ConflictingFields)
        } else {
            match ResponseError::spec_decode(v) {
                Ok(p) => Ok(ResponseFields { error: Some(p), ..st }),
                Err(e) => Err(e),
            }
        }
    } else {
        Err(DecodeErrorV::UnknownField(k))
    }
}

/// The scan over the entries of a response object from position `i`
/// on.
pub open spec fn response_scan(
    es: Seq<(Seq<char>, JsonValueV)>,
    i: int,
    st: ResponseFields,
) -> Result<ResponseFields, DecodeErrorV>
    decreases es.len() - i,
{
    if i < 0 || i >= es.len() {
        Ok(st)
    } else {
        match response_entry(st, es[i].0, es[i].1) {
            Ok(st2) => response_scan(es, i + 1, st2),
            Err(e) => Err(e),
        }
    }
}

/// The required fields, checked once every entry has been read:
/// exactly one of `result` and `error` must have appeared.
pub open spec fn response_finish(st: ResponseFields) -> Result<ResponseV, DecodeErrorV> {
    if !st.version_seen {
        Err(DecodeErrorV::MissingField(FieldName::JsonRpc))
    } else {
        match st.id {
            None => Err(DecodeErrorV::MissingField(FieldName::Id)),
            Some(id) => match (st.result, st.error) {
                (Some(v), None) => Ok(ResponseV { id: id, result: ResponseResultV::Success(v) }),
                (None, Some(p)) => Ok(ResponseV { id: id, result: ResponseResultV::Failure(p) }),
                _ => Err(DecodeErrorV::ConflictingFields),
            },
        }
    }
}

impl Response {
    /// What decoding a response yields: the object must carry exactly
    /// the fields `jsonrpc` (the version string), `id` (an
    /// identifier), and exactly one of `result` (any shape) or `error`
    /// (an error object); both or neither is a conflict, repeated or
    /// unknown keys are rejected.
    pub open spec fn spec_decode(v: JsonValueV) -> Result<ResponseV, DecodeErrorV> {
        match v {
            JsonValueV::Object(es) => match response_scan(es, 0, response_scan_start()) {
                Ok(st) => response_finish(st),
                Err(e) => Err(e),
            },
            _ => Err(DecodeErrorV::TypeMismatch),
        }
    }

    /// What encoding a response yields: `jsonrpc`, `id`, and then
    /// `result` or `error` according to the outcome, in that order.
    pub open spec fn spec_encode(rsp: ResponseV) -> JsonValueV {
        JsonValueV::Object(
            seq![
                ("jsonrpc"@, JsonValueV::Str("2.0"@)),
                ("id"@, RequestId::spec_encode(rsp.id)),
                match rsp.result {
                    ResponseResultV::Success(v) => ("result"@, v),
                    ResponseResultV::Failure(p) => ("error"@, ResponseError::spec_encode(p)),
                },
            ],
        )
    }

    /// Resolve a JSON value into a response.
    #[verifier::loop_isolation(false)]
    pub fn decode(v: &JsonValue) -> (r: Result<Response, DecodeError>)
        ensures
            r matches Ok(rsp) ==> Self::spec_decode(v@) == Ok::<ResponseV, DecodeErrorV>(rsp@),
            r matches Err(e) ==> Self::spec_decode(v@) == Err::<ResponseV, DecodeErrorV>(e@),
    {
        let entries = match v {
            JsonValue::Object(entries) => entries,
            _ => {
                return Err(DecodeError::TypeMismatch);
            },
        };
        let ghost es = v@->Object_0;
        proof {
            assert(v@ == JsonValueV::Object(es));
        }
        let mut version_seen = false;
        let mut id: Option<RequestId> = None;
        let mut result: Option<JsonValue> = None;
        let mut error: Option<ResponseError> = None;
        let mut i: usize = 0;
        while i < entries.len()
            invariant
                i <= entries.len(),
                response_scan(es, 0, response_scan_start()) == response_scan(
                    es,
                    i as int,
                    ResponseFields {
                        version_seen: version_seen,
                        id: id.deep_view(),
                        result: result.deep_view(),
                        error: error.deep_view(),
                    },
                ),
            decreases entries.len() - i,
        {
            let ghost st = ResponseFields {
                version_seen: version_seen,
                id: id.deep_view(),
                result: result.deep_view(),
                error: error.deep_view(),
            };
            proof {
                assert(es[i as int] == (entries@[i as int].0@, entries@[i as int].1.deep()));
            }
            let key: &String = &entries[i].0;
            let val: &JsonValue = &entries[i].1;
            if string_is(key, "jsonrpc") {
                if version_seen {
                    return Err(DecodeError::DuplicateField(FieldName::JsonRpc));
                }
                match val {
                    JsonValue::Str(s) => {
                        if string_is(s, "2.0") {
                            version_seen = true;
                        } else {
                            return Err(DecodeError::InvalidVersion(s.clone()));
                        }
                    },
                    _ => {
                        return Err(DecodeError::TypeMismatch);
                    },
                }
            } else if string_is(key, "id") {
                if id.is_some() {
                    return Err(DecodeError::DuplicateField(FieldName::Id));
                }
                match RequestId::decode(val) {
                    Ok(idv) => {
                        id = Some(idv);
                    },
                    Err(e) => {
                        return Err(e);
                    },
                }
            } else if string_is(key, "result") {
                if result.is_some() {
                    return Err(DecodeError::DuplicateField(FieldName::ResultField));
                }
                if error.is_some() {
                    return Err(DecodeError::ConflictingFields);
                }
                result = Some(val.clone());
            } else if string_is(key, "error") {
                if error.is_some() {
                    return Err(DecodeError::DuplicateField(FieldName::ErrorField));
                }
                if result.is_some() {
                    return Err(DecodeError::ConflictingFields);
                }
                match ResponseError::decode(val) {
                    Ok(p) => {
                        error = Some(p);
                    },
                    Err(e) => {
                        return Err(e);
                    },
                }
            } else {
                return Err(DecodeError::UnknownField(key.clone()));
            }
            proof {
                assert(response_scan(es, i as int, st) == response_scan(
                    es,
                    i as int + 1,
                    ResponseFields {
                        version_seen: version_seen,
                        id: id.deep_view(),
                        result: result.deep_view(),
                        error: error.deep_view(),
                    },
                ));
            }
            i = i + 1;
        }
        if !version_seen {
            return Err(DecodeError::MissingField(FieldName::JsonRpc));
        }
        let idv = match id {
            Some(idv) => idv,
            None => {
                return Err(DecodeError::MissingField(FieldName::Id));
            },
        };
        match (result, error) {
            (Some(value), None) => Ok(Response { id: idv, result: ResponseResult::Success(value) }),
            (None, Some(p)) => Ok(Response { id: idv, result: ResponseResult::Failure(p) }),
            _ => Err(DecodeError::ConflictingFields),
        }
    }

    /// Emit the JSON object this response denotes.
    pub fn encode(&self) -> (r: JsonValue)
        ensures
            r@ == Self::spec_encode(self@),
    {
        let mut entries: Vec<(String, JsonValue)> = Vec::new();
        entries.push(("jsonrpc".to_owned(), JsonValue::Str("2.0".to_owned())));
        entries.push(("id".to_owned(), self.id.encode()));
        match &self.result {
            ResponseResult::Success(value) => {
                entries.push(("result".to_owned(), value.clone()));
            },
            ResponseResult::Failure(p) => {
                entries.push(("error".to_owned(), p.encode()));
            },
        }
        let r = JsonValue::Object(entries);
        proof {
            let s1 = r@->Object_0;
            let s2 = Self::spec_encode(self@)->Object_0;
            assert(s1.len() == s2.len());
            assert(entries@[0].1.deep() == JsonValueV::Str("2.0"@));
            assert(s1[0] == s2[0]);
            assert(s1[1] == s2[1]);
            if self@.result is Success {
                assert(s1[2] == s2[2]);
            } else {
                assert(s1[2] == s2[2]);
            }
            assert(s1 =~= s2);
            assert(r@ == Self::spec_encode(self@));
        }
        r
    }
}

/// A response round-trips: decoding what encode emitted gives the
/// response back, for every well-formed response.
pub proof fn lemma_response_round_trip(rsp: ResponseV)
    requires
        rsp.is_wf(),
    ensures
        Response::spec_decode(Response::spec_encode(rsp)) == Ok::<ResponseV, DecodeErrorV>(rsp),
{
    crate::error::lemma_keys_distinct();
    let es = Response::spec_encode(rsp)->Object_0;
    let st0 = response_scan_start();
    let st1 = ResponseFields { version_seen: true, ..st0 };
    let st2 = ResponseFields { id: Some(rsp.id), ..st1 };
    crate::request::lemma_id_round_trip(rsp.id);
    match rsp.result {
        ResponseResultV::Success(value) => {
            let st3 = ResponseFields { result: Some(value), ..st2 };
            assert(response_scan(es, 3, st3) == Ok::<ResponseFields, DecodeErrorV>(st3));
            assert(response_scan(es, 2, st2) == response_scan(es, 3, st3));
            assert(response_scan(es, 1, st1) == response_scan(es, 2, st2));
            assert(response_scan(es, 0, st0) == response_scan(es, 1, st1));
            assert(response_finish(st3) matches Ok(q) && q =~= rsp);
        },
        ResponseResultV::Failure(p) => {
            lemma_error_round_trip(p);
            let st3 = ResponseFields { error: Some(p), ..st2 };
            assert(response_scan(es, 3, st3) == Ok::<ResponseFields, DecodeErrorV>(st3));
            assert(response_scan(es, 2, st2) == response_scan(es, 3, st3));
            assert(response_scan(es, 1, st1) == response_scan(es, 2, st2));
            assert(response_scan(es, 0, st0) == response_scan(es, 1, st1));
            assert(response_finish(st3) matches Ok(q) && q =~= rsp);
        },
    }
}


/// Each scan step keeps any stored code well formed.
proof fn lemma_error_scan_wf(es: Seq<(Seq<char>, JsonValueV)>, i: int, st: ErrorObjectFields)
    requires
        st.code matches Some(c) ==> c.is_wf(),
    ensures
        error_scan(es, i, st) matches Ok(st2) ==> (st2.code matches Some(c) ==> c.is_wf()),
    decreases es.len() - i,
{
    if 0 <= i < es.len() {
        match json_to_i64(es[i].1) {
            Some(n) => lemma_from_i64_wf(n),
            None => {},
        }
        match error_entry(st, es[i].0, es[i].1) {
            Ok(st2) => {
                lemma_error_scan_wf(es, i + 1, st2);
            },
            Err(_) => {},
        }
    }
}

/// Every error payload that decoding yields is well formed: its code
/// classifies its own integer, and its data is never an explicit null.
pub proof fn lemma_error_decode_wf(v: JsonValueV)
    ensures
        ResponseError::spec_decode(v) matches Ok(p) ==> p.is_wf(),
{
    match v {
        JsonValueV::Object(es) => {
            lemma_error_scan_wf(es, 0, error_scan_start());
        },
        _ => {},
    }
}

/// Each scan step keeps any stored identifier and payload well formed.
proof fn lemma_response_scan_wf(es: Seq<(Seq<char>, JsonValueV)>, i: int, st: ResponseFields)
    requires
        st.id matches Some(id) ==> id.is_wf(),
        st.error matches Some(p) ==> p.is_wf(),
    ensures
        response_scan(es, i, st) matches Ok(st2) ==> ((st2.id matches Some(id) ==> id.is_wf())
            && (st2.error matches Some(p) ==> p.is_wf())),
    decreases es.len() - i,
{
    if 0 <= i < es.len() {
        lemma_error_decode_wf(es[i].1);
        match response_entry(st, es[i].0, es[i].1) {
            Ok(st2) => {
                lemma_response_scan_wf(es, i + 1, st2);
            },
            Err(_) => {},
        }
    }
}

/// Every response that decoding yields is well formed.
pub proof fn lemma_response_decode_wf(v: JsonValueV)
    ensures
        Response::spec_decode(v) matches Ok(rsp) ==> rsp.is_wf(),
{
    match v {
        JsonValueV::Object(es) => {
            lemma_response_scan_wf(es, 0, response_scan_start());
        },
        _ => {},
    }
}

} // verus!
