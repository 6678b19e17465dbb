//! JSON values as the envelope carries them.

use vstd::prelude::*;

verus! {

/// The bit pattern of the smallest double whose exponent field is all ones:
/// positive infinity. Every pattern with a larger magnitude is a NaN.
pub const INFINITY_BITS: u64 = 0x7ff0_0000_0000_0000;

/// The bit that holds the sign of a double.
pub const SIGN_BIT: u64 = 0x8000_0000_0000_0000;

/// A double-precision number, held by its IEEE 754 bit pattern.
///
/// Two values are equal when their bit patterns are: `0.0` and `-0.0`
/// differ, and a NaN equals itself.
#[derive(Clone, Copy, Debug, PartialEq, Eq, Structural)]
pub struct Double {
    pub bits: u64,
}

impl Double {
    /// The pattern with the sign bit cleared.
    pub open spec fn magnitude(self) -> int {
        self.bits as int % SIGN_BIT as int
    }

    /// Whether the sign bit is set.
    pub open spec fn sign_negative(self) -> bool {
        self.bits >= SIGN_BIT
    }

    /// Neither an infinity nor a NaN.
    pub open spec fn is_finite(self) -> bool {
        self.magnitude() < INFINITY_BITS
    }

    /// Positive or negative zero.
    pub open spec fn is_zero(self) -> bool {
        self.magnitude() == 0
    }

    /// A finite number that is not below zero. Negative zero compares equal
    /// to zero and is admitted.
    pub open spec fn is_finite_non_negative(self) -> bool {
        self.is_finite() && (!self.sign_negative() || self.is_zero())
    }

    /// The double with the bit pattern `bits`.
    pub fn from_bits(bits: u64) -> (d: Double)
        ensures
            d.bits == bits,
    {
        Double { bits }
    }

    /// The bit pattern of this double.
    pub fn to_bits(self) -> (bits: u64)
        ensures
            bits == self.bits,
    {
        self.bits
    }

    /// Whether this double is neither an infinity nor a NaN.
    pub fn finite(self) -> (b: bool)
        ensures
            b == self.is_finite(),
    {
        self.bits % SIGN_BIT < INFINITY_BITS
    }

    /// Whether this double is finite and not below zero.
    pub fn finite_non_negative(self) -> (b: bool)
        ensures
            b == self.is_finite_non_negative(),
    {
        self.bits < INFINITY_BITS || self.bits == SIGN_BIT
    }
}

/// A JSON number: an unsigned integer, a negative integer, or a double.
#[derive(Clone, Copy, Debug, PartialEq, Eq, Structural)]
pub enum JsonNumber {
    PosInt(u64),
    NegInt(i64),
    Float(Double),
}

/// A JSON value. The members of an object are kept in document order.
#[derive(Debug, PartialEq, Eq)]
pub enum JsonValue {
    Null,
    Bool(bool),
    Number(JsonNumber),
    String(String),
    Array(Vec<JsonValue>),
    Object(Vec<(String, JsonValue)>),
}

impl JsonValue {
    /// Whether this is the JSON string with the text `text`.
    pub open spec fn is_string(self, text: Seq<char>) -> bool {
        self matches JsonValue::String(s) && s@ == text
    }

    /// Whether this is the JSON number that holds the double `d`.
    pub open spec fn is_double(self, d: Double) -> bool {
        self == JsonValue::Number(JsonNumber::Float(d))
    }

    /// The JSON string with the text of `text`.
    pub fn string(text: &str) -> (v: JsonValue)
        ensures
            v.is_string(text@),
    {
        JsonValue::String(text.to_owned())
    }

    /// The JSON number that holds the double `d`.
    pub fn double(d: Double) -> (v: JsonValue)
        ensures
            v.is_double(d),
    {
        JsonValue::Number(JsonNumber::Float(d))
    }
}

} // verus!
