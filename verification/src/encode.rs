//! Writing a message as a JSON document.
//!
//! Every field that the message has a value for becomes one member, under
//! its wire name and in the order of the schema. A field without a value
//! gets no member at all.

use crate::adsb_json::{ADSBJsonMessage, MessageModel, NavModes};
use crate::codec::{
    altitude_json, int_json, modes_json, texts_json, write_altitude, write_int32, write_int8,
    write_modes, write_number, write_sil_type, write_text, write_texts,
};
use crate::error::EncodeError;
use crate::json::{
    distinct_keys, lookup, lookup_push, maybe_json_model, members_model, well_keyed, Json,
    JsonModel, Member,
};
use crate::number::NumberModel;
use crate::schema::{Field, FIELD_COUNT};
use crate::text::{render, render_model, rendered};
use vstd::prelude::*;
use vstd::utf8::encode_utf8;

verus! {

/// The JSON value of a number that may be there.
pub open spec fn maybe_number_json(number: Option<NumberModel>) -> Option<JsonModel> {
    match number {
        Some(n) => Some(JsonModel::Number(n)),
        None => None,
    }
}

/// The JSON value of a 32-bit integer that may be there.
pub open spec fn maybe_int32_json(integer: Option<i32>) -> Option<JsonModel> {
    match integer {
        Some(i) => Some(int_json(i as int)),
        None => None,
    }
}

/// The JSON value of an 8-bit integer that may be there.
pub open spec fn maybe_int8_json(integer: Option<i8>) -> Option<JsonModel> {
    match integer {
        Some(i) => Some(int_json(i as int)),
        None => None,
    }
}

/// The JSON value of a string that may be there.
pub open spec fn maybe_text_json(text: Option<Seq<char>>) -> Option<JsonModel> {
    match text {
        Some(t) => Some(JsonModel::Text(t)),
        None => None,
    }
}

/// The JSON value of a list of navigation modes that may be there.
pub open spec fn maybe_modes_json(modes: Option<Seq<NavModes>>) -> Option<JsonModel> {
    match modes {
        Some(m) => Some(modes_json(m)),
        None => None,
    }
}

/// The JSON value that a message has for a field; `None` where the message
/// has no value for it. Never `null`.
pub open spec fn value_of(message: MessageModel, field: Field) -> Option<JsonModel> {
    match field {
        Field::Now => Some(JsonModel::Number(message.now)),
        Field::Hex => Some(JsonModel::Text(message.hex)),
        Field::AdsbType => Some(JsonModel::Text(message.adsb_type)),
        Field::Flight => maybe_text_json(message.flight),
        Field::AircraftRegistration => Some(JsonModel::Text(message.aircraft_registration)),
        Field::AircraftType => maybe_text_json(message.aircraft_type),
        Field::Altitude => Some(altitude_json(message.altitude)),
        Field::AltGeom => maybe_int32_json(message.alt_geom),
        Field::Gs => maybe_number_json(message.gs),
        Field::Track => maybe_number_json(message.track),
        Field::BaroRate => maybe_int32_json(message.baro_rate),
        Field::GeomRate => maybe_int32_json(message.geom_rate),
        Field::Squawk => maybe_text_json(message.squawk),
        Field::Emergency => maybe_text_json(message.emergency),
        Field::Category => maybe_text_json(message.category),
        Field::NavQnh => maybe_number_json(message.nav_qnh),
        Field::NavAltitudeMcp => maybe_int32_json(message.nav_altitude_mcp),
        Field::NavHeading => maybe_number_json(message.nav_heading),
        Field::NavModes => maybe_modes_json(message.nav_modes),
        Field::Lat => Some(JsonModel::Number(message.lat)),
        Field::Lon => Some(JsonModel::Number(message.lon)),
        Field::Nic => Some(int_json(message.nic as int)),
        Field::Rc => Some(int_json(message.rc as int)),
        Field::SeenPos => maybe_number_json(message.seen_pos),
        Field::Seen => Some(JsonModel::Number(message.seen)),
        Field::RDst => Some(JsonModel::Number(message.r_dst)),
        Field::RDir => Some(JsonModel::Number(message.r_dir)),
        Field::Version => Some(int_json(message.version as int)),
        Field::NicBaro => maybe_int8_json(message.nic_baro),
        Field::NacP => Some(int_json(message.nac_p as int)),
        Field::NacV => maybe_int8_json(message.nac_v),
        Field::Sil => Some(int_json(message.sil as int)),
        Field::SilType => Some(JsonModel::Text(message.sil_type.token())),
        Field::Gva => maybe_int8_json(message.gva),
        Field::Sda => maybe_int8_json(message.sda),
        Field::Alert => maybe_int8_json(message.alert),
        Field::Spi => maybe_int8_json(message.spi),
        Field::Mlat => Some(texts_json(message.mlat)),
        Field::Tisb => Some(texts_json(message.tisb)),
        Field::Messages => Some(int_json(message.messages as int)),
        Field::Rssi => Some(JsonModel::Number(message.rssi)),
        Field::Dbflags => maybe_int32_json(message.dbflags),
        Field::CalcTrack => maybe_int32_json(message.calc_track),
    }
}

/// The members that the first `upto` fields of the schema contribute.
pub open spec fn members_upto(message: MessageModel, upto: nat) -> Seq<(Seq<char>, JsonModel)>
    decreases upto,
{
    if upto == 0 {
        Seq::empty()
    } else {
        let before = members_upto(message, (upto - 1) as nat);
        let field = Field::at((upto - 1) as nat);
        match value_of(message, field) {
            Some(value) => before.push((field.wire(), value)),
            None => before,
        }
    }
}

/// The members of the object that stands for a message.
pub open spec fn members_of(message: MessageModel) -> Seq<(Seq<char>, JsonModel)> {
    members_upto(message, FIELD_COUNT as nat)
}

/// The JSON document that stands for a message.
pub open spec fn doc_of(message: MessageModel) -> JsonModel {
    JsonModel::Object(members_of(message))
}

/// The wire text of a message, or the serializer's message when it gives up.
pub open spec fn text_of(message: MessageModel) -> Result<Seq<char>, Seq<char>> {
    rendered(doc_of(message))
}

/// A text with a line feed behind it; a failure as it is.
pub open spec fn line(text: Result<Seq<char>, Seq<char>>) -> Result<Seq<char>, Seq<char>> {
    match text {
        Ok(t) => Ok(t.push('\n')),
        Err(complaint) => Err(complaint),
    }
}

/// A text as UTF-8 bytes; a failure as it is.
pub open spec fn bytes(text: Result<Seq<char>, Seq<char>>) -> Result<Seq<u8>, Seq<char>> {
    match text {
        Ok(t) => Ok(encode_utf8(t)),
        Err(complaint) => Err(complaint),
    }
}

/// The wire text of a message with a line feed behind it.
pub open spec fn line_of(message: MessageModel) -> Result<Seq<char>, Seq<char>> {
    line(text_of(message))
}

/// The wire text of a message as UTF-8 bytes.
pub open spec fn bytes_of(message: MessageModel) -> Result<Seq<u8>, Seq<char>> {
    bytes(text_of(message))
}

/// The wire text of a message with a line feed behind it, as UTF-8 bytes.
pub open spec fn line_bytes_of(message: MessageModel) -> Result<Seq<u8>, Seq<char>> {
    bytes(line(text_of(message)))
}

/// What the result of an encoder to text denotes.
pub open spec fn encoded_model(result: Result<String, EncodeError>) -> Result<
    Seq<char>,
    Seq<char>,
> {
    match result {
        Ok(text) => Ok(text@),
        Err(error) => Err(error@),
    }
}

/// What the result of an encoder to bytes denotes.
pub open spec fn encoded_bytes_model(result: Result<Vec<u8>, EncodeError>) -> Result<
    Seq<u8>,
    Seq<char>,
> {
    match result {
        Ok(bytes) => Ok(bytes@),
        Err(error) => Err(error@),
    }
}

/// Whether a value is a number, a string or an array of strings: the only
/// values that a message is written with.
pub open spec fn flat(value: JsonModel) -> bool {
    match value {
        JsonModel::Number(_) | JsonModel::Text(_) => true,
        JsonModel::Array(items) => forall|i: int| 0 <= i < items.len() ==> (#[trigger] items[i]) is Text,
        _ => false,
    }
}

/// A flat value holds no object, so no key is named twice in it.
pub proof fn flat_is_well_keyed(value: JsonModel)
    requires
        flat(value),
    ensures
        well_keyed(value),
{
    match value {
        JsonModel::Array(items) => {
            assert forall|i: int| 0 <= i < items.len() implies well_keyed(#[trigger] items[i]) by {
                assert(items[i] is Text);
            }
        },
        _ => {},
    }
}

/// Every value that a message is written with is flat.
pub proof fn values_are_flat(message: MessageModel, field: Field)
    ensures
        value_of(message, field) matches Some(value) ==> flat(value),
{
}

/// What the first `upto` fields contribute: one member for each of them that
/// has a value, under its wire name, no name twice; so that a wire name
/// finds the value of its field and nothing else.
pub proof fn upto_members(message: MessageModel, upto: nat)
    requires
        upto <= FIELD_COUNT,
    ensures
        forall|i: int|
            0 <= i < members_upto(message, upto).len() ==> {
                let member = #[trigger] members_upto(message, upto)[i];
                Field::of_wire(member.0) matches Some(field) && field.ordinal() < upto && value_of(
                    message,
                    field,
                ) == Some(member.1)
            },
        distinct_keys(members_upto(message, upto)),
        forall|field: Field| #[trigger]
            lookup(members_upto(message, upto), field.wire()) == if field.ordinal() < upto {
                value_of(message, field)
            } else {
                None
            },
    decreases upto,
{
    Field::wire_names();
    Field::places();
    if upto == 0 {
    } else {
        let before = members_upto(message, (upto - 1) as nat);
        let last = Field::at((upto - 1) as nat);
        let now = members_upto(message, upto);
        upto_members(message, (upto - 1) as nat);
        assert(last.ordinal() == upto - 1);
        match value_of(message, last) {
            Some(value) => {
                assert(now == before.push((last.wire(), value)));
                assert forall|i: int| 0 <= i < now.len() implies {
                    let member = #[trigger] now[i];
                    Field::of_wire(member.0) matches Some(field) && field.ordinal() < upto
                        && value_of(message, field) == Some(member.1)
                } by {
                    if i < before.len() {
                        assert(now[i] == before[i]);
                    }
                }
                assert forall|i: int, j: int| 0 <= i < j < now.len() implies (#[trigger] now[i]).0
                    != (#[trigger] now[j]).0 by {
                    assert(now[i] == before[i]);
                    if j < before.len() {
                        assert(now[j] == before[j]);
                    }
                }
                assert forall|field: Field| #[trigger]
                    lookup(now, field.wire()) == if field.ordinal() < upto {
                        value_of(message, field)
                    } else {
                        None
                    } by {
                    lookup_push(before, last.wire(), value, field.wire());
                    assert(Field::of_wire(field.wire()) == Some(field));
                    assert(Field::of_wire(last.wire()) == Some(last));
                }
            },
            None => {
                assert(now == before);
                assert forall|field: Field| #[trigger]
                    lookup(now, field.wire()) == if field.ordinal() < upto {
                        value_of(message, field)
                    } else {
                        None
                    } by {
                    assert(Field::of_wire(field.wire()) == Some(field));
                    assert(Field::of_wire(last.wire()) == Some(last));
                }
            },
        }
    }
}

/// The document of a message names no key twice.
pub proof fn doc_is_well_keyed(message: MessageModel)
    ensures
        well_keyed(doc_of(message)),
{
    let members = members_of(message);
    upto_members(message, FIELD_COUNT as nat);
    assert forall|i: int| 0 <= i < members.len() implies well_keyed((#[trigger] members[i]).1) by {
        let field = Field::of_wire(members[i].0)->Some_0;
        values_are_flat(message, field);
        flat_is_well_keyed(members[i].1);
    }
}

/// The JSON value that a message has for a field, if it has one.
pub fn field_value(message: &ADSBJsonMessage, field: Field) -> (value: Option<Json>)
    ensures
        maybe_json_model(value) == value_of(message@, field),
{
    match field {
        Field::Now => Some(write_number(&message.now)),
        Field::Hex => Some(write_text(message.hex.as_str())),
        Field::AdsbType => Some(write_text(message.adsb_type.as_str())),
        Field::Flight => match &message.flight {
            Some(t) => Some(write_text(t.as_str())),
            None => None,
        },
        Field::AircraftRegistration => Some(write_text(message.aircraft_registration.as_str())),
        Field::AircraftType => match &message.aircraft_type {
            Some(t) => Some(write_text(t.as_str())),
            None => None,
        },
        Field::Altitude => Some(write_altitude(message.altitude)),
        Field::AltGeom => match message.alt_geom {
            Some(i) => Some(write_int32(i)),
            None => None,
        },
        Field::Gs => match &message.gs {
            Some(n) => Some(write_number(n)),
            None => None,
        },
        Field::Track => match &message.track {
            Some(n) => Some(write_number(n)),
            None => None,
        },
        Field::BaroRate => match message.baro_rate {
            Some(i) => Some(write_int32(i)),
            None => None,
        },
        Field::GeomRate => match message.geom_rate {
            Some(i) => Some(write_int32(i)),
            None => None,
        },
        Field::Squawk => match &message.squawk {
            Some(t) => Some(write_text(t.as_str())),
            None => None,
        },
        Field::Emergency => match &message.emergency {
            Some(t) => Some(write_text(t.as_str())),
            None => None,
        },
        Field::Category => match &message.category {
            Some(t) => Some(write_text(t.as_str())),
            None => None,
        },
        Field::NavQnh => match &message.nav_qnh {
            Some(n) => Some(write_number(n)),
            None => None,
        },
        Field::NavAltitudeMcp => match message.nav_altitude_mcp {
            Some(i) => Some(write_int32(i)),
            None => None,
        },
        Field::NavHeading => match &message.nav_heading {
            Some(n) => Some(write_number(n)),
            None => None,
        },
        Field::NavModes => match &message.nav_modes {
            Some(modes) => Some(write_modes(modes)),
            None => None,
        },
        Field::Lat => Some(write_number(&message.lat)),
        Field::Lon => Some(write_number(&message.lon)),
        Field::Nic => Some(write_int32(message.nic)),
        Field::Rc => Some(write_int32(message.rc)),
        Field::SeenPos => match &message.seen_pos {
            Some(n) => Some(write_number(n)),
            None => None,
        },
        Field::Seen => Some(write_number(&message.seen)),
        Field::RDst => Some(write_number(&message.r_dst)),
        Field::RDir => Some(write_number(&message.r_dir)),
        Field::Version => Some(write_int32(message.version)),
        Field::NicBaro => match message.nic_baro {
            Some(i) => Some(write_int8(i)),
            None => None,
        },
        Field::NacP => Some(write_int8(message.nac_p)),
        Field::NacV => match message.nac_v {
            Some(i) => Some(write_int8(i)),
            None => None,
        },
        Field::Sil => Some(write_int8(message.sil)),
        Field::SilType => Some(write_sil_type(message.sil_type)),
        Field::Gva => match message.gva {
            Some(i) => Some(write_int8(i)),
            None => None,
        },
        Field::Sda => match message.sda {
            Some(i) => Some(write_int8(i)),
            None => None,
        },
        Field::Alert => match message.alert {
            Some(i) => Some(write_int8(i)),
            None => None,
        },
        Field::Spi => match message.spi {
            Some(i) => Some(write_int8(i)),
            None => None,
        },
        Field::Mlat => Some(write_texts(&message.mlat)),
        Field::Tisb => Some(write_texts(&message.tisb)),
        Field::Messages => Some(write_int32(message.messages)),
        Field::Rssi => Some(write_number(&message.rssi)),
        Field::Dbflags => match message.dbflags {
            Some(i) => Some(write_int32(i)),
            None => None,
        },
        Field::CalcTrack => match message.calc_track {
            Some(i) => Some(write_int32(i)),
            None => None,
        },
    }
}

/// The members of the object that stands for a message.
pub fn encode_members(message: &ADSBJsonMessage) -> (members: Vec<Member>)
    ensures
        members_model(members@) == members_of(message@),
{
    let mut members: Vec<Member> = Vec::new();
    let mut place: usize = 0;
    assert(members_model(members@) =~= members_upto(message@, 0));
    while place < FIELD_COUNT
        invariant
            place <= FIELD_COUNT,
            members_model(members@) == members_upto(message@, place as nat),
        decreases FIELD_COUNT - place,
    {
        let ghost before = members_model(members@);
        match Field::nth(place) {
            Some(field) => {
                match field_value(message, field) {
                    Some(value) => {
                        members.push(Member { key: field.wire_name().to_owned(), value });
                        assert(members_model(members@) =~= before.push((field.wire(), value@)));
                    },
                    None => {},
                }
            },
            None => {},
        }
        place = place + 1;
    }
    members
}

/// The JSON document that stands for a message.
pub fn encode_doc(message: &ADSBJsonMessage) -> (doc: Json)
    ensures
        doc@ == doc_of(message@),
{
    let members = encode_members(message);
    proof {
        Json::object_view(members);
    }
    Json::Object(members)
}

/// What the serializer made of a document, as the result of an encoder: its
/// text, or its message as the error.
pub fn encoded(render: Result<String, String>) -> (result: Result<String, EncodeError>)
    ensures
        encoded_model(result) == render_model(render),
{
    match render {
        Ok(text) => Ok(text),
        Err(complaint) => Err(EncodeError { message: complaint }),
    }
}

/// An encoded text with a line feed behind it; a failure as it is.
pub fn with_line(text: Result<String, EncodeError>) -> (result: Result<String, EncodeError>)
    ensures
        encoded_model(result) == line(encoded_model(text)),
{
    match text {
        Ok(t) => {
            let ended = t.concat("\n");
            proof {
                reveal_strlit("\n");
                assert(ended@ =~= t@.push('\n'));
            }
            Ok(ended)
        },
        Err(error) => Err(error),
    }
}

/// An encoded text as UTF-8 bytes; a failure as it is.
pub fn as_bytes(text: Result<String, EncodeError>) -> (result: Result<Vec<u8>, EncodeError>)
    ensures
        encoded_bytes_model(result) == bytes(encoded_model(text)),
{
    match text {
        Ok(t) => Ok(t.as_str().as_bytes_vec()),
        Err(error) => Err(error),
    }
}

/// The wire text of a message.
pub fn encode_text(message: &ADSBJsonMessage) -> (result: Result<String, EncodeError>)
    ensures
        encoded_model(result) == text_of(message@),
{
    let doc = encode_doc(message);
    proof {
        doc_is_well_keyed(message@);
    }
    encoded(render(&doc))
}

/// The wire text of a message with a line feed behind it.
pub fn encode_line(message: &ADSBJsonMessage) -> (result: Result<String, EncodeError>)
    ensures
        encoded_model(result) == line_of(message@),
{
    with_line(encode_text(message))
}

/// The wire text of a message as UTF-8 bytes.
pub fn encode_bytes(message: &ADSBJsonMessage) -> (result: Result<Vec<u8>, EncodeError>)
    ensures
        encoded_bytes_model(result) == bytes_of(message@),
{
    as_bytes(encode_text(message))
}

/// The wire text of a message with a line feed behind it, as UTF-8 bytes.
pub fn encode_line_bytes(message: &ADSBJsonMessage) -> (result: Result<Vec<u8>, EncodeError>)
    ensures
        encoded_bytes_model(result) == line_bytes_of(message@),
{
    as_bytes(encode_line(message))
}

} // verus!
