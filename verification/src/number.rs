//! JSON numbers.
//!
//! A number in a document is either an integer or a binary floating-point
//! value. Integers are held as plain machine integers, because the message
//! schema reads them and checks their range. Floating-point values are only
//! ever carried from the input to the output, so each one stays inside the
//! `serde_json::Number` it arrived in and is never computed with here.

use vstd::prelude::*;

verus! {

#[verifier::external_type_specification]
#[verifier::external_body]
pub struct OutsideNumber(serde_json::Number);

/// What a JSON number denotes.
pub enum NumberModel {
    /// A whole number. Those that the parser produces lie between `i64::MIN`
    /// and `u64::MAX`.
    Integer(int),
    /// A finite double, given by its IEEE-754 bit pattern.
    Float(u64),
}

/// The number that a `serde_json::Number` holds: `Integer` for one that was
/// built from an integer or read from an integer literal, `Float` with the
/// bit pattern of its double otherwise.
pub uninterp spec fn numeric(n: serde_json::Number) -> NumberModel;

/// `<serde_json::Number as Clone>::clone`: the copy is the same number.
pub assume_specification[ <serde_json::Number as Clone>::clone ](
    n: &serde_json::Number,
) -> (copy: serde_json::Number)
    ensures
        copy == *n,
;

/// `serde_json::Number::as_u64` and `as_i64` tell the integers from the
/// floating-point values; the result holds the integer itself, or the outside
/// number unchanged when it is a floating-point value.
#[verifier::external_body]
fn classify(n: &serde_json::Number) -> (number: JsonNumber)
    ensures
        number@ == numeric(*n),
{
    if let Some(u) = n.as_u64() {
        JsonNumber::PosInt(u)
    } else if let Some(i) = n.as_i64() {
        JsonNumber::NegInt(i)
    } else {
        JsonNumber::Float(Float { inner: n.clone() })
    }
}

/// `<serde_json::Number as From<u64>>::from`: the number is that integer.
#[verifier::external_body]
fn outside_unsigned(u: u64) -> (n: serde_json::Number)
    ensures
        numeric(n) == NumberModel::Integer(u as int),
{
    serde_json::Number::from(u)
}

/// `<serde_json::Number as From<i64>>::from`: the number is that integer,
/// whatever its sign.
#[verifier::external_body]
fn outside_signed(i: i64) -> (n: serde_json::Number)
    ensures
        numeric(n) == NumberModel::Integer(i as int),
{
    serde_json::Number::from(i)
}

/// `serde_json::Number::as_f64`, followed by std's `to_bits`: for a
/// floating-point number, the bit pattern of its double.
#[verifier::external_body]
fn outside_bits(n: &serde_json::Number) -> (bits: Option<u64>)
    ensures
        numeric(*n) matches NumberModel::Float(b) ==> bits == Some(b),
{
    n.as_f64().map(|x| x.to_bits())
}

/// A finite floating-point number of a document.
#[derive(Debug, PartialEq)]
pub struct Float {
    inner: serde_json::Number,
}

impl Float {
    #[verifier::type_invariant]
    spec fn is_float(self) -> bool {
        numeric(self.inner) is Float
    }

    /// The IEEE-754 bit pattern of the value.
    pub closed spec fn view(&self) -> u64 {
        numeric(self.inner)->Float_0
    }

    /// The IEEE-754 bit pattern of the value.
    pub fn to_bits(&self) -> (bits: u64)
        ensures
            bits == self@,
    {
        proof {
            use_type_invariant(self);
        }
        match outside_bits(&self.inner) {
            Some(bits) => bits,
            None => 0,
        }
    }

    /// The value as the JSON library's own number.
    pub fn to_outside(&self) -> (n: serde_json::Number)
        ensures
            numeric(n) == NumberModel::Float(self@),
    {
        proof {
            use_type_invariant(self);
        }
        self.inner.clone()
    }

    /// A second handle on the same value.
    pub fn duplicate(&self) -> (copy: Float)
        ensures
            copy@ == self@,
    {
        proof {
            use_type_invariant(self);
        }
        Float { inner: self.inner.clone() }
    }
}

impl Clone for Float {
    fn clone(&self) -> (copy: Float)
        ensures
            copy@ == self@,
    {
        self.duplicate()
    }
}

/// A JSON number as a document holds it.
#[derive(Debug, PartialEq)]
pub enum JsonNumber {
    /// An integer that fits `u64`.
    PosInt(u64),
    /// An integer that fits `i64`; the parser uses this form for negative
    /// integers only.
    NegInt(i64),
    /// A floating-point value.
    Float(Float),
}

impl Clone for JsonNumber {
    fn clone(&self) -> (copy: JsonNumber)
        ensures
            copy@ == self@,
    {
        self.duplicate()
    }
}

/// The integer that a number denotes, if it is one and fits 32 bits.
pub open spec fn int32_of(n: NumberModel) -> Option<i32> {
    match n {
        NumberModel::Integer(i) if i32::MIN <= i <= i32::MAX => Some(i as i32),
        _ => None,
    }
}

/// The integer that a number denotes, if it is one and fits 8 bits.
pub open spec fn int8_of(n: NumberModel) -> Option<i8> {
    match n {
        NumberModel::Integer(i) if i8::MIN <= i <= i8::MAX => Some(i as i8),
        _ => None,
    }
}

impl JsonNumber {
    pub open spec fn view(&self) -> NumberModel {
        match self {
            JsonNumber::PosInt(u) => NumberModel::Integer(*u as int),
            JsonNumber::NegInt(i) => NumberModel::Integer(*i as int),
            JsonNumber::Float(f) => NumberModel::Float(f@),
        }
    }

    /// Reads a number of the JSON library.
    pub fn from_outside(n: &serde_json::Number) -> (number: JsonNumber)
        ensures
            number@ == numeric(*n),
    {
        classify(n)
    }

    /// The same number for the JSON library.
    pub fn to_outside(&self) -> (n: serde_json::Number)
        ensures
            numeric(n) == self@,
    {
        match self {
            JsonNumber::PosInt(u) => outside_unsigned(*u),
            JsonNumber::NegInt(i) => outside_signed(*i),
            JsonNumber::Float(f) => f.to_outside(),
        }
    }

    /// A second handle on the same number.
    pub fn duplicate(&self) -> (copy: JsonNumber)
        ensures
            copy@ == self@,
    {
        match self {
            JsonNumber::PosInt(u) => JsonNumber::PosInt(*u),
            JsonNumber::NegInt(i) => JsonNumber::NegInt(*i),
            JsonNumber::Float(f) => JsonNumber::Float(f.duplicate()),
        }
    }

    /// The number of a 32-bit integer.
    pub fn from_i32(i: i32) -> (number: JsonNumber)
        ensures
            number@ == NumberModel::Integer(i as int),
    {
        if i < 0 {
            JsonNumber::NegInt(i as i64)
        } else {
            JsonNumber::PosInt(i as u64)
        }
    }

    /// The number of an 8-bit integer.
    pub fn from_i8(i: i8) -> (number: JsonNumber)
        ensures
            number@ == NumberModel::Integer(i as int),
    {
        if i < 0 {
            JsonNumber::NegInt(i as i64)
        } else {
            JsonNumber::PosInt(i as u64)
        }
    }

    /// Whether the number is an integer.
    pub fn is_integer(&self) -> (yes: bool)
        ensures
            yes == (self@ is Integer),
    {
        match self {
            JsonNumber::Float(_) => false,
            _ => true,
        }
    }

    /// The number as a 32-bit integer, if it is one.
    pub fn as_i32(&self) -> (value: Option<i32>)
        ensures
            value == int32_of(self@),
    {
        match self {
            JsonNumber::PosInt(u) => {
                if *u <= 0x7fff_ffff {
                    Some(*u as i32)
                } else {
                    None
                }
            },
            JsonNumber::NegInt(i) => {
                if -0x8000_0000 <= *i && *i <= 0x7fff_ffff {
                    Some(*i as i32)
                } else {
                    None
                }
            },
            JsonNumber::Float(_) => None,
        }
    }

    /// The number as an 8-bit integer, if it is one.
    pub fn as_i8(&self) -> (value: Option<i8>)
        ensures
            value == int8_of(self@),
    {
        match self {
            JsonNumber::PosInt(u) => {
                if *u <= 0x7f {
                    Some(*u as i8)
                } else {
                    None
                }
            },
            JsonNumber::NegInt(i) => {
                if -0x80 <= *i && *i <= 0x7f {
                    Some(*i as i8)
                } else {
                    None
                }
            },
            JsonNumber::Float(_) => None,
        }
    }
}

} // verus!
