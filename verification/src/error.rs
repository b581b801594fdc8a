//! The ways in which decoding and encoding fail.

use crate::json::{Json, JsonModel, Shape};
use vstd::prelude::*;

verus! {

/// What the schema wants in a place where it found something else.
#[derive(Clone, Copy, Debug, PartialEq, Eq, Structural)]
pub enum Expected {
    /// A JSON object; the whole message is one.
    Object,
    /// Any JSON number.
    Number,
    /// An integer that fits 32 bits.
    Int32,
    /// An integer that fits 8 bits.
    Int8,
    /// A string.
    Text,
    /// An array of strings.
    TextList,
}

/// Why a text is not a message. Fields are called by their wire names; the
/// message as a whole by the empty name.
#[derive(Debug, PartialEq)]
pub enum DecodeError {
    /// The text is not one JSON value. Holds the parser's own message.
    MalformedJson(String),
    /// The object has a key that the schema does not know.
    UnknownField(String),
    /// The object lacks a field that every message must have.
    MissingField(String),
    /// A value has the wrong shape: the field, what the schema wants there,
    /// and the shape of what was found.
    TypeMismatch(String, Expected, Shape),
    /// A value that must be one of a fixed set is none of them: the field and
    /// the value found.
    InvalidEnumValue(String, Json),
}

/// What a `DecodeError` denotes.
pub enum DecodeErrorModel {
    MalformedJson(Seq<char>),
    UnknownField(Seq<char>),
    MissingField(Seq<char>),
    TypeMismatch(Seq<char>, Expected, Shape),
    InvalidEnumValue(Seq<char>, JsonModel),
}

impl DecodeError {
    pub open spec fn view(&self) -> DecodeErrorModel {
        match self {
            DecodeError::MalformedJson(message) => DecodeErrorModel::MalformedJson(message@),
            DecodeError::UnknownField(key) => DecodeErrorModel::UnknownField(key@),
            DecodeError::MissingField(name) => DecodeErrorModel::MissingField(name@),
            DecodeError::TypeMismatch(field, expected, actual) => DecodeErrorModel::TypeMismatch(
                field@,
                *expected,
                *actual,
            ),
            DecodeError::InvalidEnumValue(field, value) => DecodeErrorModel::InvalidEnumValue(
                field@,
                value@,
            ),
        }
    }
}

/// Why a message could not be written. The serializer gives up only when it
/// runs out of resources; this holds its message.
#[derive(Debug, PartialEq)]
pub struct EncodeError {
    pub message: String,
}

impl EncodeError {
    pub open spec fn view(&self) -> Seq<char> {
        self.message@
    }
}

} // verus!
