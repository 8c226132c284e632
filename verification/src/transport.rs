//! The discriminated union over every message the wire can carry.
//!
//! An arbitrary JSON payload resolves to exactly one variant by trial
//! decoding in a fixed order: notification, then request, then
//! response, then an ordered batch of requests.  Each trial applies the
//! strict per-type rules, so the order only matters where shapes could
//! overlap: a notification forbids `id`, which a request requires.

use vstd::prelude::*;

use crate::error::{DecodeError, DecodeErrorV};
use crate::json::{JsonValue, JsonValueV};
use crate::notification::Notification;
use crate::request::{Request, RequestV};
use crate::response::Response;

verus! {

/// The mathematical model of a [`Message`].
#[verifier::ext_equal]
pub enum MessageV {
    Request(crate::request::RequestV),
    Response(crate::response::ResponseV),
    Notification(crate::notification::NotificationV),
    BatchRequest(Seq<RequestV>),
}

impl MessageV {
    /// A message is well formed when its parts are.
    pub open spec fn is_wf(self) -> bool {
        match self {
            MessageV::Request(r) => r.is_wf(),
            MessageV::Response(rsp) => rsp.is_wf(),
            MessageV::Notification(_) => true,
            MessageV::BatchRequest(reqs) => forall|i: int|
                0 <= i < reqs.len() ==> #[trigger] reqs[i].is_wf(),
        }
    }
}

/// Any single message sent or received over a transport: a request, a
/// response, a notification, or a batch of requests.
#[derive(Debug, Clone, PartialEq)]
pub enum Message {
    Request(Request),
    Response(Response),
    Notification(Notification),
    BatchRequest(Vec<Request>),
}

impl View for Message {
    type V = MessageV;

    open spec fn view(&self) -> MessageV {
        match self {
            Message::Request(r) => MessageV::Request(r@),
            Message::Response(rsp) => MessageV::Response(rsp@),
            Message::Notification(n) => MessageV::Notification(n@),
            Message::BatchRequest(reqs) => MessageV::BatchRequest(reqs.deep_view()),
        }
    }
}

impl DeepView for Message {
    type V = MessageV;

    open spec fn deep_view(&self) -> MessageV {
        self.view()
    }
}

/// The scan over the elements of a batch from position `i` on: every
/// element must decode as a request, and order is kept.
pub open spec fn batch_scan(
    elems: Seq<JsonValueV>,
    i: int,
    acc: Seq<RequestV>,
) -> Result<Seq<RequestV>, DecodeErrorV>
    decreases elems.len() - i,
{
    if i < 0 || i >= elems.len() {
        Ok(acc)
    } else {
        match Request::spec_decode(elems[i]) {
            Ok(r) => batch_scan(elems, i + 1, acc.push(r)),
            Err(e) => Err(e),
        }
    }
}

/// What decoding a batch yields: a JSON array each of whose elements
/// decodes as a request, in order.  An empty array is a valid, empty
/// batch.
pub open spec fn spec_decode_batch(v: JsonValueV) -> Result<Seq<RequestV>, DecodeErrorV> {
    match v {
        JsonValueV::Array(elems) => batch_scan(elems, 0, Seq::empty()),
        _ => Err(DecodeErrorV::TypeMismatch),
    }
}

/// What encoding a batch yields: the array of the encoded requests.
pub open spec fn spec_encode_batch(reqs: Seq<RequestV>) -> JsonValueV {
    JsonValueV::Array(Seq::new(reqs.len(), |i: int| Request::spec_encode(reqs[i])))
}

impl Message {
    /// What decoding a message yields: the first of notification,
    /// request, response, and batch whose strict decode accepts the
    /// payload; if all four refuse it, the payload matches no variant.
    pub open spec fn spec_decode(v: JsonValueV) -> Result<MessageV, DecodeErrorV> {
        if Notification::spec_decode(v) is Ok {
            Ok(MessageV::Notification(Notification::spec_decode(v)->Ok_0))
        } else if Request::spec_decode(v) is Ok {
            Ok(MessageV::Request(Request::spec_decode(v)->Ok_0))
        } else if Response::spec_decode(v) is Ok {
            Ok(MessageV::Response(Response::spec_decode(v)->Ok_0))
        } else if spec_decode_batch(v) is Ok {
            Ok(MessageV::BatchRequest(spec_decode_batch(v)->Ok_0))
        } else {
            Err(DecodeErrorV::NoMatchingVariant)
        }
    }

    /// What encoding a message yields: each variant delegates to its
    /// own encode.
    pub open spec fn spec_encode(m: MessageV) -> JsonValueV {
        match m {
            MessageV::Request(r) => Request::spec_encode(r),
            MessageV::Response(rsp) => Response::spec_encode(rsp),
            MessageV::Notification(n) => Notification::spec_encode(n),
            MessageV::BatchRequest(reqs) => spec_encode_batch(reqs),
        }
    }

    /// Resolve a JSON payload into a message, trying notification,
    /// request, response, and batch in that order.
    pub fn decode(v: &JsonValue) -> (r: Result<Message, DecodeError>)
        ensures
            r matches Ok(m) ==> Self::spec_decode(v@) == Ok::<MessageV, DecodeErrorV>(m@),
            r matches Err(e) ==> Self::spec_decode(v@) == Err::<MessageV, DecodeErrorV>(e@),
    {
        match Notification::decode(v) {
            Ok(n) => {
                return Ok(Message::Notification(n));
            },
            Err(_) => {},
        }
        match Request::decode(v) {
            Ok(rq) => {
                return Ok(Message::Request(rq));
            },
            Err(_) => {},
        }
        match Response::decode(v) {
            Ok(rsp) => {
                return Ok(Message::Response(rsp));
            },
            Err(_) => {},
        }
        match decode_batch(v) {
            Ok(reqs) => {
                return Ok(Message::BatchRequest(reqs));
            },
            Err(_) => {},
        }
        Err(DecodeError::NoMatchingVariant)
    }

    /// Emit the JSON payload this message denotes.
    pub fn encode(&self) -> (r: JsonValue)
        ensures
            r@ == Self::spec_encode(self@),
    {
        match self {
            Message::Request(rq) => rq.encode(),
            Message::Response(rsp) => rsp.encode(),
            Message::Notification(n) => n.encode(),
            Message::BatchRequest(reqs) => encode_batch(reqs),
        }
    }
}

/// Resolve a JSON value into a batch of requests.
#[verifier::loop_isolation(false)]
fn decode_batch(v: &JsonValue) -> (r: Result<Vec<Request>, DecodeError>)
    ensures
        r matches Ok(reqs) ==> spec_decode_batch(v@) == Ok::<Seq<RequestV>, DecodeErrorV>(
            reqs.deep_view(),
        ),
        r matches Err(e) ==> spec_decode_batch(v@) == Err::<Seq<RequestV>, DecodeErrorV>(e@),
{
    let elems = match v {
        JsonValue::Array(elems) => elems,
        _ => {
            return Err(DecodeError::TypeMismatch);
        },
    };
    let ghost vs = v@->Array_0;
    proof {
        assert(v@ == JsonValueV::Array(vs));
    }
    let mut out: Vec<Request> = Vec::new();
    proof {
        assert(out.deep_view() =~= Seq::<RequestV>::empty());
    }
    let mut i: usize = 0;
    while i < elems.len()
        invariant
            i <= elems.len(),
            out@.len() == i as int,
            batch_scan(vs, 0, Seq::empty()) == batch_scan(vs, i as int, out.deep_view()),
        decreases elems.len() - i,
    {
        let ghost acc = out.deep_view();
        proof {
            assert(vs[i as int] == elems@[i as int].deep());
        }
        match Request::decode(&elems[i]) {
            Ok(rq) => {
                out.push(rq);
            },
            Err(e) => {
                return Err(e);
            },
        }
        proof {
            assert(out.deep_view() =~= acc.push(out@[i as int]@));
            assert(batch_scan(vs, i as int, acc) == batch_scan(vs, i as int + 1, out.deep_view()));
        }
        i = i + 1;
    }
    Ok(out)
}

/// Emit the JSON array a batch denotes.
#[verifier::loop_isolation(false)]
fn encode_batch(reqs: &Vec<Request>) -> (r: JsonValue)
    ensures
        r@ == spec_encode_batch(reqs.deep_view()),
{
    let mut out: Vec<JsonValue> = Vec::new();
    let mut i: usize = 0;
    while i < reqs.len()
        invariant
            i <= reqs.len(),
            out@.len() == i as int,
            forall|j: int| 0 <= j < i as int ==> out@[j].deep() == Request::spec_encode(
                reqs@[j]@,
            ),
        decreases reqs.len() - i,
    {
        let e = reqs[i].encode();
        out.push(e);
        i = i + 1;
    }
    let r = JsonValue::Array(out);
    proof {
        let s1 = r@->Array_0;
        let s2 = spec_encode_batch(reqs.deep_view())->Array_0;
        assert(s1.len() == s2.len());
        assert forall|j: int| 0 <= j < s1.len() implies s1[j] == s2[j] by {}
        assert(s1 =~= s2);
        assert(r@ == spec_encode_batch(reqs.deep_view()));
    }
    r
}


/// What a request encodes to never passes the notification decoder:
/// the mandatory `id` entry is a forbidden field there.
proof fn lemma_notification_rejects_request(r: RequestV)
    ensures
        Notification::spec_decode(Request::spec_encode(r)) is Err,
{
    crate::error::lemma_keys_distinct();
    let es = Request::spec_encode(r)->Object_0;
    let st0 = crate::notification::notification_scan_start();
    let st1 = crate::notification::NotificationFields { version_seen: true, ..st0 };
    let st2 = crate::notification::NotificationFields { method: Some(r.method), ..st1 };
    assert(crate::notification::notification_scan(es, 0, st0)
        == crate::notification::notification_scan(es, 1, st1));
    assert(crate::notification::notification_scan(es, 1, st1)
        == crate::notification::notification_scan(es, 2, st2));
    if r.params is Some {
        let st3 = crate::notification::NotificationFields { params: Some(r.params->0), ..st2 };
        assert(crate::notification::notification_scan(es, 2, st2)
            == crate::notification::notification_scan(es, 3, st3));
        assert(crate::notification::notification_scan(es, 3, st3) is Err);
    } else {
        assert(crate::notification::notification_scan(es, 2, st2) is Err);
    }
}

/// What a response encodes to never passes the notification decoder:
/// its `id` entry is a forbidden field there.
proof fn lemma_notification_rejects_response(rsp: crate::response::ResponseV)
    ensures
        Notification::spec_decode(Response::spec_encode(rsp)) is Err,
{
    crate::error::lemma_keys_distinct();
    let es = Response::spec_encode(rsp)->Object_0;
    let st0 = crate::notification::notification_scan_start();
    let st1 = crate::notification::NotificationFields { version_seen: true, ..st0 };
    assert(crate::notification::notification_scan(es, 0, st0)
        == crate::notification::notification_scan(es, 1, st1));
    assert(crate::notification::notification_scan(es, 1, st1) is Err);
}

/// What a well-formed response encodes to never passes the request
/// decoder: its `result` or `error` entry is an unknown field there.
proof fn lemma_request_rejects_response(rsp: crate::response::ResponseV)
    requires
        rsp.id.is_wf(),
    ensures
        Request::spec_decode(Response::spec_encode(rsp)) is Err,
{
    crate::error::lemma_keys_distinct();
    crate::request::lemma_id_round_trip(rsp.id);
    let es = Response::spec_encode(rsp)->Object_0;
    let st0 = crate::request::request_scan_start();
    let st1 = crate::request::RequestFields { version_seen: true, ..st0 };
    let st2 = crate::request::RequestFields { id: Some(rsp.id), ..st1 };
    assert(crate::request::request_scan(es, 0, st0) == crate::request::request_scan(es, 1, st1));
    assert(crate::request::request_scan(es, 1, st1) == crate::request::request_scan(es, 2, st2));
    assert(crate::request::request_scan(es, 2, st2) is Err);
}

/// The batch scan accepts the encoding of a sequence of well-formed
/// requests and yields them back in order.
proof fn lemma_batch_scan_encode(reqs: Seq<RequestV>, i: int, acc: Seq<RequestV>)
    requires
        0 <= i <= reqs.len(),
        forall|j: int| 0 <= j < reqs.len() ==> #[trigger] reqs[j].is_wf(),
    ensures
        batch_scan(spec_encode_batch(reqs)->Array_0, i, acc) == Ok::<Seq<RequestV>, DecodeErrorV>(
            acc + reqs.skip(i),
        ),
    decreases reqs.len() - i,
{
    let elems = spec_encode_batch(reqs)->Array_0;
    if i == reqs.len() {
        assert(acc + reqs.skip(i) =~= acc);
    } else {
        crate::request::lemma_request_round_trip(reqs[i]);
        assert(elems[i] == Request::spec_encode(reqs[i]));
        lemma_batch_scan_encode(reqs, i + 1, acc.push(reqs[i]));
        assert(acc.push(reqs[i]) + reqs.skip(i + 1) =~= acc + reqs.skip(i));
    }
}

/// A message round-trips: decoding what encode emitted gives the same
/// message back, for every well-formed message.  In particular the
/// trial order never misclassifies an encoded value: a request's `id`
/// fails the notification trial, a response's `result` or `error`
/// fails the notification and request trials, and a batch is an array,
/// which no object decoder accepts.
pub proof fn lemma_message_round_trip(m: MessageV)
    requires
        m.is_wf(),
    ensures
        Message::spec_decode(Message::spec_encode(m)) == Ok::<MessageV, DecodeErrorV>(m),
{
    match m {
        MessageV::Notification(n) => {
            crate::notification::lemma_notification_round_trip(n);
        },
        MessageV::Request(r) => {
            lemma_notification_rejects_request(r);
            crate::request::lemma_request_round_trip(r);
        },
        MessageV::Response(rsp) => {
            lemma_notification_rejects_response(rsp);
            lemma_request_rejects_response(rsp);
            crate::response::lemma_response_round_trip(rsp);
        },
        MessageV::BatchRequest(reqs) => {
            let enc = spec_encode_batch(reqs);
            assert(Notification::spec_decode(enc) is Err);
            assert(Request::spec_decode(enc) is Err);
            assert(Response::spec_decode(enc) is Err);
            lemma_batch_scan_encode(reqs, 0, Seq::empty());
            assert(Seq::empty() + reqs.skip(0) =~= reqs);
        },
    }
}


/// Each batch scan step keeps every gathered request well formed.
proof fn lemma_batch_scan_wf(elems: Seq<JsonValueV>, i: int, acc: Seq<RequestV>)
    requires
        forall|j: int| 0 <= j < acc.len() ==> #[trigger] acc[j].is_wf(),
    ensures
        batch_scan(elems, i, acc) matches Ok(reqs) ==> (forall|j: int|
            0 <= j < reqs.len() ==> #[trigger] reqs[j].is_wf()),
    decreases elems.len() - i,
{
    if 0 <= i < elems.len() {
        crate::request::lemma_request_decode_wf(elems[i]);
        match Request::spec_decode(elems[i]) {
            Ok(r) => {
                lemma_batch_scan_wf(elems, i + 1, acc.push(r));
            },
            Err(_) => {},
        }
    }
}

/// Every message that decoding yields is well formed: identifiers hold
/// finite numbers, codes classify their own integers, and error data
/// is never an explicit null.  Together with the round-trip law this
/// pins the image of decode: it is exactly the well-formed messages.
pub proof fn lemma_message_decode_wf(v: JsonValueV)
    ensures
        Message::spec_decode(v) matches Ok(m) ==> m.is_wf(),
{
    crate::request::lemma_request_decode_wf(v);
    crate::response::lemma_response_decode_wf(v);
    if spec_decode_batch(v) is Ok {
        match v {
            JsonValueV::Array(elems) => {
                lemma_batch_scan_wf(elems, 0, Seq::empty());
            },
            _ => {},
        }
    }
}


/// A notification scan only succeeds over entries without an `id` key:
/// that key is a forbidden field there.
proof fn lemma_notification_scan_no_id(
    es: Seq<(Seq<char>, JsonValueV)>,
    i: int,
    st: crate::notification::NotificationFields,
)
    requires
        0 <= i <= es.len(),
        crate::notification::notification_scan(es, i, st) is Ok,
    ensures
        forall|j: int| i <= j < es.len() ==> #[trigger] es[j].0 != "id"@,
    decreases es.len() - i,
{
    crate::error::lemma_keys_distinct();
    if i < es.len() {
        match crate::notification::notification_entry(st, es[i].0, es[i].1) {
            Ok(st2) => {
                lemma_notification_scan_no_id(es, i + 1, st2);
            },
            Err(_) => {},
        }
    }
}

/// A request scan only succeeds over entries drawn from its closed
/// schema.
proof fn lemma_request_scan_keys_known(
    es: Seq<(Seq<char>, JsonValueV)>,
    i: int,
    st: crate::request::RequestFields,
)
    requires
        0 <= i <= es.len(),
        crate::request::request_scan(es, i, st) is Ok,
    ensures
        forall|j: int|
            i <= j < es.len() ==> (#[trigger] es[j].0 == "jsonrpc"@ || es[j].0 == "method"@
                || es[j].0 == "params"@ || es[j].0 == "id"@),
    decreases es.len() - i,
{
    crate::error::lemma_keys_distinct();
    if i < es.len() {
        match crate::request::request_entry(st, es[i].0, es[i].1) {
            Ok(st2) => {
                lemma_request_scan_keys_known(es, i + 1, st2);
            },
            Err(_) => {},
        }
    }
}

/// Without an `id` entry, a request scan never acquires an identifier.
proof fn lemma_request_scan_id_none(
    es: Seq<(Seq<char>, JsonValueV)>,
    i: int,
    st: crate::request::RequestFields,
)
    requires
        0 <= i <= es.len(),
        st.id is None,
        forall|j: int| i <= j < es.len() ==> #[trigger] es[j].0 != "id"@,
    ensures
        crate::request::request_scan(es, i, st) matches Ok(st2) ==> st2.id is None,
    decreases es.len() - i,
{
    crate::error::lemma_keys_distinct();
    if i < es.len() {
        match crate::request::request_entry(st, es[i].0, es[i].1) {
            Ok(st2) => {
                lemma_request_scan_id_none(es, i + 1, st2);
            },
            Err(_) => {},
        }
    }
}

/// Without an `id` entry, a response scan never acquires an
/// identifier.
proof fn lemma_response_scan_id_none(
    es: Seq<(Seq<char>, JsonValueV)>,
    i: int,
    st: crate::response::ResponseFields,
)
    requires
        0 <= i <= es.len(),
        st.id is None,
        forall|j: int| i <= j < es.len() ==> #[trigger] es[j].0 != "id"@,
    ensures
        crate::response::response_scan(es, i, st) matches Ok(st2) ==> st2.id is None,
    decreases es.len() - i,
{
    crate::error::lemma_keys_distinct();
    if i < es.len() {
        match crate::response::response_entry(st, es[i].0, es[i].1) {
            Ok(st2) => {
                lemma_response_scan_id_none(es, i + 1, st2);
            },
            Err(_) => {},
        }
    }
}

/// Without a `result` or `error` entry, a response scan never acquires
/// an outcome.
proof fn lemma_response_scan_outcome_none(
    es: Seq<(Seq<char>, JsonValueV)>,
    i: int,
    st: crate::response::ResponseFields,
)
    requires
        0 <= i <= es.len(),
        st.result is None,
        st.error is None,
        forall|j: int|
            i <= j < es.len() ==> (#[trigger] es[j].0 != "result"@ && es[j].0 != "error"@),
    ensures
        crate::response::response_scan(es, i, st) matches Ok(st2) ==> (st2.result is None
            && st2.error is None),
    decreases es.len() - i,
{
    crate::error::lemma_keys_distinct();
    if i < es.len() {
        match crate::response::response_entry(st, es[i].0, es[i].1) {
            Ok(st2) => {
                lemma_response_scan_outcome_none(es, i + 1, st2);
            },
            Err(_) => {},
        }
    }
}

/// The four message shapes are mutually exclusive on every payload,
/// not only on canonical encodings, so the trial order of the
/// discriminator never decides between two shapes that both match: a
/// payload a notification accepts has no `id`, which a request and a
/// response require; one a request accepts has no `result` or `error`,
/// which a response requires; and a batch is an array, which no object
/// shape accepts.
pub proof fn lemma_shapes_mutually_exclusive(v: JsonValueV)
    ensures
        Notification::spec_decode(v) is Ok ==> Request::spec_decode(v) is Err,
        Notification::spec_decode(v) is Ok ==> Response::spec_decode(v) is Err,
        Request::spec_decode(v) is Ok ==> Response::spec_decode(v) is Err,
        spec_decode_batch(v) is Ok ==> Notification::spec_decode(v) is Err
            && Request::spec_decode(v) is Err && Response::spec_decode(v) is Err,
{
    crate::error::lemma_keys_distinct();
    match v {
        JsonValueV::Object(es) => {
            if Notification::spec_decode(v) is Ok {
                lemma_notification_scan_no_id(es, 0, crate::notification::notification_scan_start());
                lemma_request_scan_id_none(es, 0, crate::request::request_scan_start());
                lemma_response_scan_id_none(es, 0, crate::response::response_scan_start());
            }
            if Request::spec_decode(v) is Ok {
                lemma_request_scan_keys_known(es, 0, crate::request::request_scan_start());
                assert forall|j: int| 0 <= j < es.len() implies (es[j].0 != "result"@ && es[j].0
                    != "error"@) by {
                    assert(es[j].0 == "jsonrpc"@ || es[j].0 == "method"@ || es[j].0 == "params"@
                        || es[j].0 == "id"@);
                }
                lemma_response_scan_outcome_none(es, 0, crate::response::response_scan_start());
            }
        },
        _ => {},
    }
}

} // verus!
