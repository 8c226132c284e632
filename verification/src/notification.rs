//! Notifications: fire-and-forget messages.
//!
//! A notification carries a `method` and optional `params` and never an
//! identifier; an `id` key in the source object is an explicit decode
//! error, distinct from an unknown field.

use vstd::prelude::*;

use crate::error::{DecodeError, DecodeErrorV, FieldName};
use crate::json::{string_is, JsonValue, JsonValueV};

verus! {

/// The mathematical model of a [`Notification`].
#[verifier::ext_equal]
pub struct NotificationV {
    pub method: Seq<char>,
    pub params: Option<JsonValueV>,
}

/// A fire-and-forget message: method and optional parameters, no
/// identifier.
#[derive(Debug, Clone, PartialEq)]
pub struct Notification {
    pub method: String,
    pub params: Option<JsonValue>,
}

impl View for Notification {
    type V = NotificationV;

    open spec fn view(&self) -> NotificationV {
        NotificationV { method: self.method@, params: self.params.deep_view() }
    }
}

impl DeepView for Notification {
    type V = NotificationV;

    open spec fn deep_view(&self) -> NotificationV {
        self.view()
    }
}

/// What the scan over a notification object has gathered so far.
pub struct NotificationFields {
    pub version_seen: bool,
    pub method: Option<Seq<char>>,
    pub params: Option<JsonValueV>,
}

/// The scan state before any entry has been read.
pub open spec fn notification_scan_start() -> NotificationFields {
    NotificationFields { version_seen: false, method: None, params: None }
}

/// How one object entry advances the scan of a notification object.
pub open spec fn notification_entry(
    st: NotificationFields,
    k: Seq<char>,
    v: JsonValueV,
) -> Result<NotificationFields, DecodeErrorV> {
    if k == "jsonrpc"@ {
        if st.version_seen {
            Err(DecodeErrorV::DuplicateField(FieldName::JsonRpc))
        } else {
            match v {
                JsonValueV::Str(s) => if s == "2.0"@ {
                    Ok(NotificationFields { version_seen: true, ..st })
                } else {
                    Err(DecodeErrorV::InvalidVersion(s))
                },
                _ => Err(DecodeErrorV::TypeMismatch),
            }
        }
    } else if k == "method"@ {
        if st.method is Some {
            Err(DecodeErrorV::DuplicateField(FieldName::Method))
        } else {
            match v {
                JsonValueV::Str(m) => Ok(NotificationFields { method: Some(m), ..st }),
                _ => Err(DecodeErrorV::TypeMismatch),
            }
        }
    } else if k == "params"@ {
        if st.params is Some {
            Err(DecodeErrorV::DuplicateField(FieldName::Params))
        } else {
            Ok(NotificationFields { params: Some(v), ..st })
        }
    } else if k == "id"@ {
        Err(DecodeErrorV::ForbiddenField(FieldName::Id))
    } else {
        Err(DecodeErrorV::UnknownField(k))
    }
}

/// The scan over the entries of a notification object from position
/// `i` on: the first faulty entry decides the error.
pub open spec fn notification_scan(
    es: Seq<(Seq<char>, JsonValueV)>,
    i: int,
    st: NotificationFields,
) -> Result<NotificationFields, DecodeErrorV>
    decreases es.len() - i,
{
    if i < 0 || i >= es.len() {
        Ok(st)
    } else {
        match notification_entry(st, es[i].0, es[i].1) {
            Ok(st2) => notification_scan(es, i + 1, st2),
            Err(e) => Err(e),
        }
    }
}

/// The required fields, checked once every entry has been read.
pub open spec fn notification_finish(
    st: NotificationFields,
) -> Result<NotificationV, DecodeErrorV> {
    if !st.version_seen {
        Err(DecodeErrorV::MissingField(FieldName::JsonRpc))
    } else {
        match st.method {
            None => Err(DecodeErrorV::MissingField(FieldName::Method)),
            Some(m) => Ok(NotificationV { method: m, params: st.params }),
        }
    }
}

impl Notification {
    /// What decoding a notification yields: the object must carry
    /// exactly the fields `jsonrpc` (the version string) and `method`
    /// (a string), and at most one `params` of any shape; an `id` key
    /// is forbidden, repeated or unknown keys are rejected.
    pub open spec fn spec_decode(v: JsonValueV) -> Result<NotificationV, DecodeErrorV> {
        match v {
            JsonValueV::Object(es) => match notification_scan(es, 0, notification_scan_start()) {
                Ok(st) => notification_finish(st),
                Err(e) => Err(e),
            },
            _ => Err(DecodeErrorV::TypeMismatch),
        }
    }

    /// What encoding a notification yields: `jsonrpc`, `method`, and
    /// `params` only when present, in that order.
    pub open spec fn spec_encode(n: NotificationV) -> JsonValueV {
        JsonValueV::Object(
            if n.params is Some {
                seq![
                    ("jsonrpc"@, JsonValueV::Str("2.0"@)),
                    ("method"@, JsonValueV::Str(n.method)),
                    ("params"@, n.params->0),
                ]
            } else {
                seq![("jsonrpc"@, JsonValueV::Str("2.0"@)), ("method"@, JsonValueV::Str(n.method))]
            },
        )
    }

    /// Resolve a JSON value into a notification.
    #[verifier::loop_isolation(false)]
    pub fn decode(v: &JsonValue) -> (r: Result<Notification, DecodeError>)
        ensures
            r matches Ok(n) ==> Self::spec_decode(v@) == Ok::<NotificationV, DecodeErrorV>(n@),
            r matches Err(e) ==> Self::spec_decode(v@) == Err::<NotificationV, DecodeErrorV>(e@),
    {
        let entries = match v {
            JsonValue::Object(entries) => entries,
            _ => {
                return Err(DecodeError::TypeMismatch);
            },
        };
        let ghost es = v@->Object_0;
        proof {
            assert(v@ == JsonValueV::Object(es));
        }
        let mut version_seen = false;
        let mut method: Option<String> = None;
        let mut params: Option<JsonValue> = None;
        let mut i: usize = 0;
        while i < entries.len()
            invariant
                i <= entries.len(),
                notification_scan(es, 0, notification_scan_start()) == notification_scan(
                    es,
                    i as int,
                    NotificationFields {
                        version_seen: version_seen,
                        method: method.deep_view(),
                        params: params.deep_view(),
                    },
                ),
            decreases entries.len() - i,
        {
            let ghost st = NotificationFields {
                version_seen: version_seen,
                method: method.deep_view(),
                params: params.deep_view(),
            };
            proof {
                assert(es[i as int] == (entries@[i as int].0@, entries@[i as int].1.deep()));
            }
            let key: &String = &entries[i].0;
            let val: &JsonValue = &entries[i].1;
            if string_is(key, "jsonrpc") {
                if version_seen {
                    return Err(DecodeError::DuplicateField(FieldName::JsonRpc));
                }
                match val {
                    JsonValue::Str(s) => {
                        if string_is(s, "2.0") {
                            version_seen = true;
                        } else {
                            return Err(DecodeError::InvalidVersion(s.clone()));
                        }
                    },
                    _ => {
                        return Err(DecodeError::TypeMismatch);
                    },
                }
            } else if string_is(key, "method") {
                if method.is_some() {
                    return Err(DecodeError::DuplicateField(FieldName::Method));
                }
                match val {
                    JsonValue::Str(m) => {
                        method = Some(m.clone());
                    },
                    _ => {
                        return Err(DecodeError::TypeMismatch);
                    },
                }
            } else if string_is(key, "params") {
                if params.is_some() {
                    return Err(DecodeError::DuplicateField(FieldName::Params));
                }
                params = Some(val.clone());
            } else if string_is(key, "id") {
                return Err(DecodeError::ForbiddenField(FieldName::Id));
            } else {
                return Err(DecodeError::UnknownField(key.clone()));
            }
            proof {
                assert(notification_scan(es, i as int, st) == notification_scan(
                    es,
                    i as int + 1,
                    NotificationFields {
                        version_seen: version_seen,
                        method: method.deep_view(),
                        params: params.deep_view(),
                    },
                ));
            }
            i = i + 1;
        }
        if !version_seen {
            return Err(DecodeError::MissingField(FieldName::JsonRpc));
        }
        let m = match method {
            Some(m) => m,
            None => {
                return Err(DecodeError::MissingField(FieldName::Method));
            },
        };
        Ok(Notification { method: m, params: params })
    }

    /// Emit the JSON object this notification denotes.
    pub fn encode(&self) -> (r: JsonValue)
        ensures
            r@ == Self::spec_encode(self@),
    {
        let mut entries: Vec<(String, JsonValue)> = Vec::new();
        entries.push(("jsonrpc".to_owned(), JsonValue::Str("2.0".to_owned())));
        entries.push(("method".to_owned(), JsonValue::Str(self.method.clone())));
        match &self.params {
            Some(p) => {
                entries.push(("params".to_owned(), p.clone()));
            },
            None => {},
        }
        let r = JsonValue::Object(entries);
        proof {
            let s1 = r@->Object_0;
            let s2 = Self::spec_encode(self@)->Object_0;
            if self@.params is Some {
                assert(s1.len() == s2.len());
                assert(entries@[0].1.deep() == JsonValueV::Str("2.0"@));
                assert(entries@[1].1.deep() == JsonValueV::Str(self.method@));
                assert(s1[0] == s2[0]);
                assert(s1[1] == s2[1]);
                assert(s1[2] == s2[2]);
            } else {
                assert(s1.len() == s2.len());
                assert(entries@[0].1.deep() == JsonValueV::Str("2.0"@));
                assert(entries@[1].1.deep() == JsonValueV::Str(self.method@));
                assert(s1[0] == s2[0]);
                assert(s1[1] == s2[1]);
            }
            assert(s1 =~= s2);
            assert(r@ == Self::spec_encode(self@));
        }
        r
    }
}

/// A notification round-trips: decoding what encode emitted gives the
/// notification back, for every notification value.
pub proof fn lemma_notification_round_trip(n: NotificationV)
    ensures
        Notification::spec_decode(Notification::spec_encode(n)) == Ok::<
            NotificationV,
            DecodeErrorV,
        >(n),
{
    crate::error::lemma_keys_distinct();
    let es = Notification::spec_encode(n)->Object_0;
    let st0 = notification_scan_start();
    let st1 = NotificationFields { version_seen: true, ..st0 };
    let st2 = NotificationFields { method: Some(n.method), ..st1 };
    if n.params is Some {
        let st3 = NotificationFields { params: Some(n.params->0), ..st2 };
        assert(notification_scan(es, 3, st3) == Ok::<NotificationFields, DecodeErrorV>(st3));
        assert(notification_scan(es, 2, st2) == notification_scan(es, 3, st3));
        assert(notification_scan(es, 1, st1) == notification_scan(es, 2, st2));
        assert(notification_scan(es, 0, st0) == notification_scan(es, 1, st1));
        assert(notification_finish(st3) == Ok::<NotificationV, DecodeErrorV>(
            NotificationV { method: n.method, params: n.params },
        ));
        assert(NotificationV { method: n.method, params: n.params } =~= n);
    } else {
        assert(notification_scan(es, 2, st2) == Ok::<NotificationFields, DecodeErrorV>(st2));
        assert(notification_scan(es, 1, st1) == notification_scan(es, 2, st2));
        assert(notification_scan(es, 0, st0) == notification_scan(es, 1, st1));
        assert(notification_finish(st2) == Ok::<NotificationV, DecodeErrorV>(
            NotificationV { method: n.method, params: n.params },
        ));
        assert(NotificationV { method: n.method, params: n.params } =~= n);
    }
}

} // verus!
