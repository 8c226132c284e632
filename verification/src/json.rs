//! A generic JSON value, the common currency of the codec.
//!
//! Decoding resolves one of these values into a typed message; encoding
//! produces one back.  Objects keep their entries in source order and may
//! hold repeated keys, so that decoding can detect duplicates; encoding
//! only ever emits well-formed objects.
//!
//! The codec never does arithmetic on numbers: it only carries them and
//! tests their shape.  A floating-point value is therefore held as its
//! IEEE 754 bit pattern, a plain integer; equality on numbers is
//! structural, and decoding rejects a bit pattern that does not denote
//! a finite value wherever the grammar asks for one.

use vstd::prelude::*;

verus! {

/// A JSON number: a non-negative integer, a negative integer, or a
/// floating-point value held as its IEEE 754 double-precision bits.
#[derive(Debug, Clone, Copy, PartialEq, Eq, Structural)]
pub enum JsonNumber {
    /// A non-negative integer.
    Uint(u64),
    /// A negative integer (decoding only ever stores values below zero
    /// here; non-negative integers use `Uint`).
    Int(i64),
    /// The bit pattern of a double-precision floating-point value.
    Float(u64),
}

/// The exponent field of an IEEE 754 double is all ones exactly for
/// infinities and NaNs; a number is finite when it is anything else.
pub open spec fn float_bits_finite(bits: u64) -> bool {
    (bits >> 52) & 0x7ff != 0x7ff
}

impl JsonNumber {
    /// Whether this number denotes a finite value: integers always do,
    /// a floating-point value iff its exponent field is not all ones.
    pub open spec fn is_finite(self) -> bool {
        match self {
            JsonNumber::Uint(_) => true,
            JsonNumber::Int(_) => true,
            JsonNumber::Float(bits) => float_bits_finite(bits),
        }
    }
}

/// The mathematical model of a [`JsonValue`]: the same tree, with
/// sequences in place of vectors and strings.
#[verifier::ext_equal]
pub enum JsonValueV {
    Null,
    Bool(bool),
    Number(JsonNumber),
    Str(Seq<char>),
    Array(Seq<JsonValueV>),
    Object(Seq<(Seq<char>, JsonValueV)>),
}

/// A generic JSON value.
#[derive(Debug, PartialEq)]
pub enum JsonValue {
    Null,
    Bool(bool),
    Number(JsonNumber),
    Str(String),
    Array(Vec<JsonValue>),
    /// Entries in source order; keys may repeat.
    Object(Vec<(String, JsonValue)>),
}

impl JsonValue {
    /// The model of this value.
    pub open spec fn deep(self) -> JsonValueV
        decreases self,
    {
        match self {
            JsonValue::Null => JsonValueV::Null,
            JsonValue::Bool(b) => JsonValueV::Bool(b),
            JsonValue::Number(n) => JsonValueV::Number(n),
            JsonValue::Str(s) => JsonValueV::Str(s@),
            JsonValue::Array(a) => JsonValueV::Array(
                Seq::new(
                    a@.len(),
                    |i: int| if 0 <= i < a@.len() { a@[i].deep() } else { JsonValueV::Null },
                ),
            ),
            JsonValue::Object(o) => JsonValueV::Object(
                Seq::new(
                    o@.len(),
                    |i: int|
                        if 0 <= i < o@.len() {
                            (o@[i].0@, o@[i].1.deep())
                        } else {
                            (Seq::empty(), JsonValueV::Null)
                        },
                ),
            ),
        }
    }
}

impl View for JsonValue {
    type V = JsonValueV;

    open spec fn view(&self) -> JsonValueV {
        (*self).deep()
    }
}

impl DeepView for JsonValue {
    type V = JsonValueV;

    open spec fn deep_view(&self) -> JsonValueV {
        (*self).deep()
    }
}

impl Clone for JsonValue {
    /// A clone denotes the same JSON value as the original.
    #[verifier::loop_isolation(false)]
    fn clone(&self) -> (r: Self)
        ensures
            r@ == self@,
        decreases *self,
    {
        match self {
            JsonValue::Null => JsonValue::Null,
            JsonValue::Bool(b) => JsonValue::Bool(*b),
            JsonValue::Number(n) => JsonValue::Number(*n),
            JsonValue::Str(s) => JsonValue::Str(s.clone()),
            JsonValue::Array(a) => {
                let mut out: Vec<JsonValue> = Vec::new();
                let mut i: usize = 0;
                while i < a.len()
                    invariant
                        i <= a.len(),
                        out@.len() == i as int,
                        forall|j: int| 0 <= j < i as int ==> out@[j].deep() == a@[j].deep(),
                    decreases a.len() - i,
                {
                    let c = a[i].clone();
                    out.push(c);
                    i = i + 1;
                }
                let r = JsonValue::Array(out);
                proof {
                    let s1 = r@->Array_0;
                    let s2 = (*self)@->Array_0;
                    assert(s1.len() == s2.len());
                    assert forall|j: int| 0 <= j < s1.len() implies s1[j] == s2[j] by {}
                    assert(s1 =~= s2);
                    assert(r@ == JsonValueV::Array(s1));
                    assert((*self)@ == JsonValueV::Array(s2));
                    assert(r@ == (*self)@);
                }
                r
            },
            JsonValue::Object(o) => {
                let mut out: Vec<(String, JsonValue)> = Vec::new();
                let mut i: usize = 0;
                while i < o.len()
                    invariant
                        i <= o.len(),
                        out@.len() == i as int,
                        forall|j: int| 0 <= j < i as int ==> out@[j].0@ == o@[j].0@
                            && out@[j].1.deep() == o@[j].1.deep(),
                    decreases o.len() - i,
                {
                    let k = o[i].0.clone();
                    let v = o[i].1.clone();
                    out.push((k, v));
                    i = i + 1;
                }
                let r = JsonValue::Object(out);
                proof {
                    let s1 = r@->Object_0;
                    let s2 = (*self)@->Object_0;
                    assert(s1.len() == s2.len());
                    assert forall|j: int| 0 <= j < s1.len() implies s1[j] == s2[j] by {}
                    assert(s1 =~= s2);
                    assert(r@ == JsonValueV::Object(s1));
                    assert((*self)@ == JsonValueV::Object(s2));
                    assert(r@ == (*self)@);
                }
                r
            },
        }
    }
}

/// Whether the string `k` spells exactly the literal `lit`.
pub(crate) fn string_is(k: &String, lit: &str) -> (r: bool)
    ensures
        r == (k@ == lit@),
{
    let s: String = lit.to_owned();
    *k == s
}

} // verus!
