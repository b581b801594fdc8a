//! Decoding and encoding of ADS-B aircraft messages in their JSON wire form.
//!
//! A message is one JSON object per line. `adsb_json` holds the message and
//! its methods, `schema` the table of its fields, `decode` and `encode` what
//! a decoder and an encoder yield, and `laws` what holds of the two together.
//! `json`, `number` and `text` carry JSON documents to and from `serde_json`,
//! which does the parsing and the printing.

use crate::adsb_json::{ADSBJsonMessage, MessageModel};
use crate::decode::{decode_text, outcome_of_text};
use crate::encode::{
    bytes_of, encode_bytes, encode_line, encode_line_bytes, encode_text, encoded_bytes_model,
    encoded_model, line_bytes_of, line_of, text_of,
};
use crate::error::{DecodeError, DecodeErrorModel, EncodeError};
use vstd::prelude::*;

pub mod adsb_json;
pub mod codec;
pub mod decode;
pub mod encode;
pub mod error;
pub mod json;
pub mod laws;
pub mod number;
pub mod schema;
pub mod text;

verus! {

/// A message of any of the formats that this library reads. There is one,
/// so every text that decodes at all decodes as it.
#[derive(Debug, PartialEq)]
pub enum ADSBMessage {
    ADSBJsonMessage(ADSBJsonMessage),
}

impl Clone for ADSBMessage {
    fn clone(&self) -> (copy: ADSBMessage)
        ensures
            copy@ == self@,
    {
        match self {
            ADSBMessage::ADSBJsonMessage(message) => ADSBMessage::ADSBJsonMessage(
                message.duplicate(),
            ),
        }
    }
}

/// What the result of decoding to any format denotes.
pub open spec fn decoded_any_model(result: Result<ADSBMessage, DecodeError>) -> Result<
    MessageModel,
    DecodeErrorModel,
> {
    match result {
        Ok(message) => Ok(message@),
        Err(error) => Err(error@),
    }
}

impl ADSBMessage {
    pub open spec fn view(&self) -> MessageModel {
        match self {
            ADSBMessage::ADSBJsonMessage(message) => message@,
        }
    }

    /// The wire text of the message.
    pub fn to_string(&self) -> (result: Result<String, EncodeError>)
        ensures
            encoded_model(result) == text_of(self@),
    {
        match self {
            ADSBMessage::ADSBJsonMessage(message) => encode_text(message),
        }
    }

    /// The wire text of the message, with a line feed behind it.
    pub fn to_string_newline(&self) -> (result: Result<String, EncodeError>)
        ensures
            encoded_model(result) == line_of(self@),
    {
        match self {
            ADSBMessage::ADSBJsonMessage(message) => encode_line(message),
        }
    }

    /// The wire text of the message as UTF-8 bytes.
    pub fn to_bytes(&self) -> (result: Result<Vec<u8>, EncodeError>)
        ensures
            encoded_bytes_model(result) == bytes_of(self@),
    {
        match self {
            ADSBMessage::ADSBJsonMessage(message) => encode_bytes(message),
        }
    }

    /// The wire text of the message with a line feed behind it, as UTF-8
    /// bytes.
    pub fn to_bytes_newline(&self) -> (result: Result<Vec<u8>, EncodeError>)
        ensures
            encoded_bytes_model(result) == line_bytes_of(self@),
    {
        match self {
            ADSBMessage::ADSBJsonMessage(message) => encode_line_bytes(message),
        }
    }
}

impl Default for ADSBMessage {
    /// The message in which nothing is reported.
    fn default() -> (message: ADSBMessage)
        ensures
            message@ == crate::adsb_json::blank(),
    {
        ADSBMessage::ADSBJsonMessage(ADSBJsonMessage::default())
    }
}

/// Decoding of a message of any format from whatever holds its wire text.
///
/// The text must be one JSON object; it is read, not consumed.
pub trait DecodeMessage {
    /// The text that the value holds.
    spec fn message_text(&self) -> Seq<char>;

    /// Decodes the text as a message.
    fn decode_message(&self) -> (result: Result<ADSBMessage, DecodeError>)
        ensures
            decoded_any_model(result) == outcome_of_text(self.message_text()),
    ;
}

impl DecodeMessage for String {
    open spec fn message_text(&self) -> Seq<char> {
        self@
    }

    fn decode_message(&self) -> (result: Result<ADSBMessage, DecodeError>) {
        match decode_text(self.as_str()) {
            Ok(message) => Ok(ADSBMessage::ADSBJsonMessage(message)),
            Err(error) => Err(error),
        }
    }
}

impl DecodeMessage for str {
    open spec fn message_text(&self) -> Seq<char> {
        self@
    }

    fn decode_message(&self) -> (result: Result<ADSBMessage, DecodeError>) {
        match decode_text(self) {
            Ok(message) => Ok(ADSBMessage::ADSBJsonMessage(message)),
            Err(error) => Err(error),
        }
    }
}

} // verus!
