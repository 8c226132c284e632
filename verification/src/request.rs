//! Requests and their identifiers.
//!
//! A request is a correlatable call: `method`, optional `params`, and a
//! mandatory `id`.  The identifier is a number, a string, or null; any
//! other JSON shape is rejected, as is a number that does not denote a
//! finite value.

use vstd::prelude::*;

use crate::error::{DecodeError, DecodeErrorV, FieldName};
use crate::json::{string_is, JsonNumber, JsonValue, JsonValueV};

verus! {

/// The mathematical model of a [`RequestId`].
#[verifier::ext_equal]
pub enum RequestIdV {
    Number(JsonNumber),
    String(Seq<char>),
    Null,
}

impl RequestIdV {
    /// An identifier is well formed when its number, if any, denotes a
    /// finite value; only such identifiers are ever produced by decoding.
    pub open spec fn is_wf(self) -> bool {
        match self {
            RequestIdV::Number(n) => n.is_finite(),
            RequestIdV::String(_) => true,
            RequestIdV::Null => true,
        }
    }
}

/// A request identifier: a number, a string, or null.
#[derive(Debug, Clone, PartialEq)]
pub enum RequestId {
    Number(JsonNumber),
    String(String),
    Null,
}

impl View for RequestId {
    type V = RequestIdV;

    open spec fn view(&self) -> RequestIdV {
        match self {
            RequestId::Number(n) => RequestIdV::Number(*n),
            RequestId::String(s) => RequestIdV::String(s@),
            RequestId::Null => RequestIdV::Null,
        }
    }
}

impl DeepView for RequestId {
    type V = RequestIdV;

    open spec fn deep_view(&self) -> RequestIdV {
        self.view()
    }
}

impl RequestId {
    /// What decoding an identifier yields: numbers (finite only),
    /// strings, and null are accepted; arrays, objects, and booleans
    /// are a type mismatch.
    pub open spec fn spec_decode(v: JsonValueV) -> Result<RequestIdV, DecodeErrorV> {
        match v {
            JsonValueV::Number(n) => if n.is_finite() {
                Ok(RequestIdV::Number(n))
            } else {
                Err(DecodeErrorV::TypeMismatch)
            },
            JsonValueV::Str(s) => Ok(RequestIdV::String(s)),
            JsonValueV::Null => Ok(RequestIdV::Null),
            _ => Err(DecodeErrorV::TypeMismatch),
        }
    }

    /// What encoding an identifier yields: the structural inverse of
    /// decoding.
    pub open spec fn spec_encode(id: RequestIdV) -> JsonValueV {
        match id {
            RequestIdV::Number(n) => JsonValueV::Number(n),
            RequestIdV::String(s) => JsonValueV::Str(s),
            RequestIdV::Null => JsonValueV::Null,
        }
    }

    /// Resolve a JSON value into an identifier.
    pub fn decode(v: &JsonValue) -> (r: Result<RequestId, DecodeError>)
        ensures
            r matches Ok(id) ==> Self::spec_decode(v@) == Ok::<RequestIdV, DecodeErrorV>(id@),
            r matches Err(e) ==> Self::spec_decode(v@) == Err::<RequestIdV, DecodeErrorV>(e@),
    {
        match v {
            JsonValue::Number(n) => {
                let finite = match n {
                    JsonNumber::Uint(_) => true,
                    JsonNumber::Int(_) => true,
                    JsonNumber::Float(bits) => (*bits >> 52) & 0x7ff != 0x7ff,
                };
                if finite {
                    Ok(RequestId::Number(*n))
                } else {
                    Err(DecodeError::TypeMismatch)
                }
            },
            JsonValue::Str(s) => Ok(RequestId::String(s.clone())),
            JsonValue::Null => Ok(RequestId::Null),
            _ => Err(DecodeError::TypeMismatch),
        }
    }

    /// Emit the JSON value this identifier denotes.
    pub fn encode(&self) -> (r: JsonValue)
        ensures
            r@ == Self::spec_encode(self@),
    {
        match self {
            RequestId::Number(n) => JsonValue::Number(*n),
            RequestId::String(s) => JsonValue::Str(s.clone()),
            RequestId::Null => JsonValue::Null,
        }
    }
}

/// An identifier round-trips: decoding what encode emitted gives the
/// identifier back, for every well-formed identifier.
pub proof fn lemma_id_round_trip(id: RequestIdV)
    requires
        id.is_wf(),
    ensures
        RequestId::spec_decode(RequestId::spec_encode(id)) == Ok::<RequestIdV, DecodeErrorV>(id),
{
}

/// The mathematical model of a [`Request`].
#[verifier::ext_equal]
pub struct RequestV {
    pub method: Seq<char>,
    pub params: Option<JsonValueV>,
    pub id: RequestIdV,
}

impl RequestV {
    /// A request is well formed when its identifier is.
    pub open spec fn is_wf(self) -> bool {
        self.id.is_wf()
    }
}

/// A correlatable call: method, optional parameters, mandatory
/// identifier.
#[derive(Debug, Clone, PartialEq)]
pub struct Request {
    pub method: String,
    pub params: Option<JsonValue>,
    pub id: RequestId,
}

impl View for Request {
    type V = RequestV;

    open spec fn view(&self) -> RequestV {
        RequestV {
            method: self.method@,
            params: self.params.deep_view(),
            id: self.id@,
        }
    }
}

impl DeepView for Request {
    type V = RequestV;

    open spec fn deep_view(&self) -> RequestV {
        self.view()
    }
}

/// What the scan over a request object has gathered so far.
pub struct RequestFields {
    pub version_seen: bool,
    pub method: Option<Seq<char>>,
    pub params: Option<JsonValueV>,
    pub id: Option<RequestIdV>,
}

/// The scan state before any entry has been read.
pub open spec fn request_scan_start() -> RequestFields {
    RequestFields { version_seen: false, method: None, params: None, id: None }
}

/// How one object entry advances the scan of a request object.
pub open spec fn request_entry(
    st: RequestFields,
    k: Seq<char>,
    v: JsonValueV,
) -> Result<RequestFields, DecodeErrorV> {
    if k == "jsonrpc"@ {
        if st.version_seen {
            Err(DecodeErrorV::DuplicateField(FieldName::JsonRpc))
        } else {
            match v {
                JsonValueV::Str(s) => if s == "2.0"@ {
                    Ok(RequestFields { version_seen: true, ..st })
                } else {
                    Err(DecodeErrorV::InvalidVersion(s))
                },
                _ => Err(DecodeErrorV::TypeMismatch),
            }
        }
    } else if k == "method"@ {
        if st.method is Some {
            Err(DecodeErrorV::DuplicateField(FieldName::Method))
        } else {
            match v {
                JsonValueV::Str(m) => Ok(RequestFields { method: Some(m), ..st }),
                _ => Err(DecodeErrorV::TypeMismatch),
            }
        }
    } else if k == "params"@ {
        if st.params is Some {
            Err(DecodeErrorV::DuplicateField(FieldName::Params))
        } else {
            Ok(RequestFields { params: Some(v), ..st })
        }
    } else if k == "id"@ {
        if st.id is Some {
            Err(DecodeErrorV::DuplicateField(FieldName::Id))
        } else {
            match RequestId::spec_decode(v) {
                Ok(id) => Ok(RequestFields { id: Some(id), ..st }),
                Err(e) => Err(e),
            }
        }
    } else {
        Err(DecodeErrorV::UnknownField(k))
    }
}

/// The scan over the entries of a request object from position `i`
/// on: the first faulty entry decides the error.
pub open spec fn request_scan(
    es: Seq<(Seq<char>, JsonValueV)>,
    i: int,
    st: RequestFields,
) -> Result<RequestFields, DecodeErrorV>
    decreases es.len() - i,
{
    if i < 0 || i >= es.len() {
        Ok(st)
    } else {
        match request_entry(st, es[i].0, es[i].1) {
            Ok(st2) => request_scan(es, i + 1, st2),
            Err(e) => Err(e),
        }
    }
}

/// The required fields, checked once every entry has been read.
pub open spec fn request_finish(st: RequestFields) -> Result<RequestV, DecodeErrorV> {
    if !st.version_seen {
        Err(DecodeErrorV::MissingField(FieldName::JsonRpc))
    } else {
        match st.method {
            None => Err(DecodeErrorV::MissingField(FieldName::Method)),
            Some(m) => match st.id {
                None => Err(DecodeErrorV::MissingField(FieldName::Id)),
                Some(id) => Ok(RequestV { method: m, params: st.params, id: id }),
            },
        }
    }
}

impl Request {
    /// What decoding a request yields: the object must carry exactly
    /// the fields `jsonrpc` (the version string), `method` (a string),
    /// `id` (an identifier), and at most one `params` of any shape;
    /// repeated or unknown keys are rejected.
    pub open spec fn spec_decode(v: JsonValueV) -> Result<RequestV, DecodeErrorV> {
        match v {
            JsonValueV::Object(es) => match request_scan(es, 0, request_scan_start()) {
                Ok(st) => request_finish(st),
                Err(e) => Err(e),
            },
            _ => Err(DecodeErrorV::TypeMismatch),
        }
    }

    /// What encoding a request yields: `jsonrpc`, `method`, `params`
    /// (omitted entirely when absent), and `id`, in that order.
    pub open spec fn spec_encode(r: RequestV) -> JsonValueV {
        JsonValueV::Object(
            if r.params is Some {
                seq![
                    ("jsonrpc"@, JsonValueV::Str("2.0"@)),
                    ("method"@, JsonValueV::Str(r.method)),
                    ("params"@, r.params->0),
                    ("id"@, RequestId::spec_encode(r.id)),
                ]
            } else {
                seq![
                    ("jsonrpc"@, JsonValueV::Str("2.0"@)),
                    ("method"@, JsonValueV::Str(r.method)),
                    ("id"@, RequestId::spec_encode(r.id)),
                ]
            },
        )
    }

    /// Resolve a JSON value into a request.
    #[verifier::loop_isolation(false)]
    pub fn decode(v: &JsonValue) -> (r: Result<Request, DecodeError>)
        ensures
            r matches Ok(rq) ==> Self::spec_decode(v@) == Ok::<RequestV, DecodeErrorV>(rq@),
            r matches Err(e) ==> Self::spec_decode(v@) == Err::<RequestV, DecodeErrorV>(e@),
    {
        let entries = match v {
            JsonValue::Object(entries) => entries,
            _ => {
                return Err(DecodeError::TypeMismatch);
            },
        };
        let ghost es = v@->Object_0;
        proof {
            assert(v@ == JsonValueV::Object(es));
        }
        let mut version_seen = false;
        let mut method: Option<String> = None;
        let mut params: Option<JsonValue> = None;
        let mut id: Option<RequestId> = None;
        let mut i: usize = 0;
        while i < entries.len()
            invariant
                i <= entries.len(),
                request_scan(es, 0, request_scan_start()) == request_scan(
                    es,
                    i as int,
                    RequestFields {
                        version_seen: version_seen,
                        method: method.deep_view(),
                        params: params.deep_view(),
                        id: id.deep_view(),
                    },
                ),
            decreases entries.len() - i,
        {
            let ghost st = RequestFields {
                version_seen: version_seen,
                method: method.deep_view(),
                params: params.deep_view(),
                id: id.deep_view(),
            };
            proof {
                assert(es[i as int] == (entries@[i as int].0@, entries@[i as int].1.deep()));
            }
            let key: &String = &entries[i].0;
            let val: &JsonValue = &entries[i].1;
            if string_is(key, "jsonrpc") {
                if version_seen {
                    return Err(DecodeError::DuplicateField(FieldName::JsonRpc));
                }
                match val {
                    JsonValue::Str(s) => {
                        if string_is(s, "2.0") {
                            version_seen = true;
                        } else {
                            return Err(DecodeError::InvalidVersion(s.clone()));
                        }
                    },
                    _ => {
                        return Err(DecodeError::TypeMismatch);
                    },
                }
            } else if string_is(key, "method") {
                if method.is_some() {
                    return Err(DecodeError::DuplicateField(FieldName::Method));
                }
                match val {
                    JsonValue::Str(m) => {
                        method = Some(m.clone());
                    },
                    _ => {
                        return Err(DecodeError::TypeMismatch);
                    },
                }
            } else if string_is(key, "params") {
                if params.is_some() {
                    return Err(DecodeError::DuplicateField(FieldName::Params));
                }
                params = Some(val.clone());
            } else if string_is(key, "id") {
                if id.is_some() {
                    return Err(DecodeError::DuplicateField(FieldName::Id));
                }
                match RequestId::decode(val) {
                    Ok(idv) => {
                        id = Some(idv);
                    },
                    Err(e) => {
                        return Err(e);
                    },
                }
            } else {
                return Err(DecodeError::UnknownField(key.clone()));
            }
            proof {
                assert(request_scan(es, i as int, st) == request_scan(
                    es,
                    i as int + 1,
                    RequestFields {
                        version_seen: version_seen,
                        method: method.deep_view(),
                        params: params.deep_view(),
                        id: id.deep_view(),
                    },
                ));
            }
            i = i + 1;
        }
        if !version_seen {
            return Err(DecodeError::MissingField(FieldName::JsonRpc));
        }
        let m = match method {
            Some(m) => m,
            None => {
                return Err(DecodeError::MissingField(FieldName::Method));
            },
        };
        let idv = match id {
            Some(idv) => idv,
            None => {
                return Err(DecodeError::MissingField(FieldName::Id));
            },
        };
        Ok(Request { method: m, params: params, id: idv })
    }

    /// Emit the JSON object this request denotes.
    pub fn encode(&self) -> (r: JsonValue)
        ensures
            r@ == Self::spec_encode(self@),
    {
        let mut entries: Vec<(String, JsonValue)> = Vec::new();
        entries.push(("jsonrpc".to_owned(), JsonValue::Str("2.0".to_owned())));
        entries.push(("method".to_owned(), JsonValue::Str(self.method.clone())));
        match &self.params {
            Some(p) => {
                entries.push(("params".to_owned(), p.clone()));
            },
            None => {},
        }
        entries.push(("id".to_owned(), self.id.encode()));
        let r = JsonValue::Object(entries);
        proof {
            let s1 = r@->Object_0;
            let s2 = Self::spec_encode(self@)->Object_0;
            if self@.params is Some {
                assert(s1.len() == s2.len());
                assert(entries@[0].1.deep() == JsonValueV::Str("2.0"@));
                assert(entries@[1].1.deep() == JsonValueV::Str(self.method@));
                assert(s1[0] == s2[0]);
                assert(s1[1] == s2[1]);
                assert(s1[2] == s2[2]);
                assert(s1[3] == s2[3]);
            } else {
                assert(s1.len() == s2.len());
                assert(entries@[0].1.deep() == JsonValueV::Str("2.0"@));
                assert(entries@[1].1.deep() == JsonValueV::Str(self.method@));
                assert(s1[0] == s2[0]);
                assert(s1[1] == s2[1]);
                assert(s1[2] == s2[2]);
            }
            assert(s1 =~= s2);
            assert(r@ == Self::spec_encode(self@));
        }
        r
    }
}

/// A request round-trips: decoding what encode emitted gives the
/// request back, for every well-formed request.
pub proof fn lemma_request_round_trip(r: RequestV)
    requires
        r.is_wf(),
    ensures
        Request::spec_decode(Request::spec_encode(r)) == Ok::<RequestV, DecodeErrorV>(r),
{
    crate::error::lemma_keys_distinct();
    let es = Request::spec_encode(r)->Object_0;
    let st0 = request_scan_start();
    let st1 = RequestFields { version_seen: true, ..st0 };
    let st2 = RequestFields { method: Some(r.method), ..st1 };
    if r.params is Some {
        let st3 = RequestFields { params: Some(r.params->0), ..st2 };
        let st4 = RequestFields { id: Some(r.id), ..st3 };
        assert(request_scan(es, 4, st4) == Ok::<RequestFields, DecodeErrorV>(st4));
        assert(request_scan(es, 3, st3) == request_scan(es, 4, st4));
        assert(request_scan(es, 2, st2) == request_scan(es, 3, st3));
        assert(request_scan(es, 1, st1) == request_scan(es, 2, st2));
        assert(request_scan(es, 0, st0) == request_scan(es, 1, st1));
        assert(request_finish(st4) == Ok::<RequestV, DecodeErrorV>(
            RequestV { method: r.method, params: r.params, id: r.id },
        ));
        assert(RequestV { method: r.method, params: r.params, id: r.id } =~= r);
    } else {
        let st3 = RequestFields { id: Some(r.id), ..st2 };
        assert(request_scan(es, 3, st3) == Ok::<RequestFields, DecodeErrorV>(st3));
        assert(request_scan(es, 2, st2) == request_scan(es, 3, st3));
        assert(request_scan(es, 1, st1) == request_scan(es, 2, st2));
        assert(request_scan(es, 0, st0) == request_scan(es, 1, st1));
        assert(request_finish(st3) == Ok::<RequestV, DecodeErrorV>(
            RequestV { method: r.method, params: r.params, id: r.id },
        ));
        assert(RequestV { method: r.method, params: r.params, id: r.id } =~= r);
    }
}


/// Each scan step keeps any stored identifier well formed.
proof fn lemma_request_scan_wf(es: Seq<(Seq<char>, JsonValueV)>, i: int, st: RequestFields)
    requires
        st.id matches Some(id) ==> id.is_wf(),
    ensures
        request_scan(es, i, st) matches Ok(st2) ==> (st2.id matches Some(id) ==> id.is_wf()),
    decreases es.len() - i,
{
    if 0 <= i < es.len() {
        match request_entry(st, es[i].0, es[i].1) {
            Ok(st2) => {
                lemma_request_scan_wf(es, i + 1, st2);
            },
            Err(_) => {},
        }
    }
}

/// Every request that decoding yields is well formed: its identifier
/// never holds a non-finite number.
pub proof fn lemma_request_decode_wf(v: JsonValueV)
    ensures
        Request::spec_decode(v) matches Ok(r) ==> r.is_wf(),
{
    match v {
        JsonValueV::Object(es) => {
            lemma_request_scan_wf(es, 0, request_scan_start());
        },
        _ => {},
    }
}

} // verus!
