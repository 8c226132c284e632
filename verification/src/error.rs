//! The decode-time error taxonomy.
//!
//! Every failure of the codec is one of these values; the contracts of
//! the decode functions state exactly which one comes back on which
//! input.

use vstd::prelude::*;

verus! {

/// A field of one of the message object schemas.
#[derive(Debug, Clone, Copy, PartialEq, Eq, Structural)]
pub enum FieldName {
    JsonRpc,
    Method,
    Params,
    Id,
    ResultField,
    ErrorField,
    Code,
    Message,
    Data,
}

/// The mathematical model of a [`DecodeError`].
#[verifier::ext_equal]
pub enum DecodeErrorV {
    MissingField(FieldName),
    DuplicateField(FieldName),
    UnknownField(Seq<char>),
    InvalidVersion(Seq<char>),
    ForbiddenField(FieldName),
    ConflictingFields,
    TypeMismatch,
    NoMatchingVariant,
}

/// Why a payload failed to decode.
#[derive(Debug, Clone, PartialEq)]
pub enum DecodeError {
    /// A structurally required key is absent.
    MissingField(FieldName),
    /// A key is repeated in the source object.
    DuplicateField(FieldName),
    /// A key is not part of the type's closed schema; carries the key.
    UnknownField(String),
    /// The `jsonrpc` field is a string other than `"2.0"`; carries it.
    InvalidVersion(String),
    /// A key that this variant disallows (`id` on a notification).
    ForbiddenField(FieldName),
    /// `result` and `error` both present, or neither.
    ConflictingFields,
    /// A field's JSON shape does not match the expected type.
    TypeMismatch,
    /// The payload matched none of the message shapes.
    NoMatchingVariant,
}

impl View for DecodeError {
    type V = DecodeErrorV;

    open spec fn view(&self) -> DecodeErrorV {
        match self {
            DecodeError::MissingField(f) => DecodeErrorV::MissingField(*f),
            DecodeError::DuplicateField(f) => DecodeErrorV::DuplicateField(*f),
            DecodeError::UnknownField(k) => DecodeErrorV::UnknownField(k@),
            DecodeError::InvalidVersion(s) => DecodeErrorV::InvalidVersion(s@),
            DecodeError::ForbiddenField(f) => DecodeErrorV::ForbiddenField(*f),
            DecodeError::ConflictingFields => DecodeErrorV::ConflictingFields,
            DecodeError::TypeMismatch => DecodeErrorV::TypeMismatch,
            DecodeError::NoMatchingVariant => DecodeErrorV::NoMatchingVariant,
        }
    }
}

impl DeepView for DecodeError {
    type V = DecodeErrorV;

    open spec fn deep_view(&self) -> DecodeErrorV {
        self.view()
    }
}


/// The nine field names of the message schemas are pairwise distinct
/// strings; the scans rely on this to tell entries apart.
pub proof fn lemma_keys_distinct()
    ensures
        "jsonrpc"@ != "method"@,
        "jsonrpc"@ != "params"@,
        "jsonrpc"@ != "id"@,
        "jsonrpc"@ != "result"@,
        "jsonrpc"@ != "error"@,
        "jsonrpc"@ != "code"@,
        "jsonrpc"@ != "message"@,
        "jsonrpc"@ != "data"@,
        "method"@ != "params"@,
        "method"@ != "id"@,
        "method"@ != "result"@,
        "method"@ != "error"@,
        "method"@ != "code"@,
        "method"@ != "message"@,
        "method"@ != "data"@,
        "params"@ != "id"@,
        "params"@ != "result"@,
        "params"@ != "error"@,
        "params"@ != "code"@,
        "params"@ != "message"@,
        "params"@ != "data"@,
        "id"@ != "result"@,
        "id"@ != "error"@,
        "id"@ != "code"@,
        "id"@ != "message"@,
        "id"@ != "data"@,
        "result"@ != "error"@,
        "result"@ != "code"@,
        "result"@ != "message"@,
        "result"@ != "data"@,
        "error"@ != "code"@,
        "error"@ != "message"@,
        "error"@ != "data"@,
        "code"@ != "message"@,
        "code"@ != "data"@,
        "message"@ != "data"@,
{
    reveal_strlit("jsonrpc");
    reveal_strlit("method");
    reveal_strlit("params");
    reveal_strlit("id");
    reveal_strlit("result");
    reveal_strlit("error");
    reveal_strlit("code");
    reveal_strlit("message");
    reveal_strlit("data");
    assert("jsonrpc"@.len() == 7);
    assert("method"@.len() == 6);
    assert("params"@.len() == 6);
    assert("id"@.len() == 2);
    assert("result"@.len() == 6);
    assert("error"@.len() == 5);
    assert("code"@.len() == 4);
    assert("message"@.len() == 7);
    assert("data"@.len() == 4);
    assert("jsonrpc"@[0] != "message"@[0]);
    assert("method"@[0] != "params"@[0]);
    assert("method"@[0] != "result"@[0]);
    assert("params"@[0] != "result"@[0]);
    assert("code"@[0] != "data"@[0]);
}

} // verus!
