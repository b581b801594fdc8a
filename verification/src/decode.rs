//! Reading a message from a JSON document.
//!
//! A document is a message when it is an object, every key of it is a wire
//! name of the schema, every required field is there, and every value has
//! the shape that its field asks for. The checks are made in this order, and
//! the first failure is the outcome: the first unknown key in document
//! order, else the first missing field in schema order, else the first
//! ill-shaped value in schema order. Where a key occurs more than once, its
//! first occurrence counts.

use crate::adsb_json::{maybe_text_model, ADSBJsonMessage, MessageModel};
use crate::codec::{
    altitude_in, check, fault, fault_model, int32_if, int32_in, int8_if, int8_in, modes_if,
    number_if, number_in, read_altitude, read_int32, read_int32_if, read_int8, read_int8_if,
    read_modes_if, read_number, read_number_if, read_sil_type, read_text, read_text_if,
    read_texts, sil_type_in, text_if, text_in, texts_in,
};
use crate::error::{DecodeError, DecodeErrorModel, Expected};
use crate::json::{find, lookup, members_model, shape_of, Json, JsonModel, Member};
use crate::schema::{Field, FIELD_COUNT};
use crate::text::{parse, parse_model, parsed};
use vstd::prelude::*;

verus! {

/// The first key from member `from` on that is no wire name of the schema.
pub open spec fn unknown_from(members: Seq<(Seq<char>, JsonModel)>, from: nat) -> Option<Seq<char>>
    decreases members.len() - from,
{
    if from >= members.len() {
        None
    } else if Field::of_wire(members[from as int].0) is None {
        Some(members[from as int].0)
    } else {
        unknown_from(members, from + 1)
    }
}

/// The first required field from place `from` of the schema on that the
/// members lack.
pub open spec fn missing_from(members: Seq<(Seq<char>, JsonModel)>, from: nat) -> Option<Field>
    decreases FIELD_COUNT - from,
{
    if from >= FIELD_COUNT {
        None
    } else if Field::at(from).required() && lookup(members, Field::at(from).wire()) is None {
        Some(Field::at(from))
    } else {
        missing_from(members, from + 1)
    }
}

/// What is wrong with the value that the members have for a field; `None`
/// when they have none or the field accepts it.
pub open spec fn field_fault(members: Seq<(Seq<char>, JsonModel)>, field: Field) -> Option<
    DecodeErrorModel,
> {
    match lookup(members, field.wire()) {
        Some(value) => fault(field.wire(), field.kind(), value),
        None => None,
    }
}

/// The fault of the first field from place `from` of the schema on whose
/// value is ill-shaped.
pub open spec fn fault_from(members: Seq<(Seq<char>, JsonModel)>, from: nat) -> Option<
    DecodeErrorModel,
>
    decreases FIELD_COUNT - from,
{
    if from >= FIELD_COUNT {
        None
    } else {
        match field_fault(members, Field::at(from)) {
            Some(error) => Some(error),
            None => fault_from(members, from + 1),
        }
    }
}

/// The message whose attributes are what the members hold under the wire
/// names.
pub open spec fn assemble(members: Seq<(Seq<char>, JsonModel)>) -> MessageModel {
    MessageModel {
        now: number_in(lookup(members, Field::Now.wire())),
        hex: text_in(lookup(members, Field::Hex.wire())),
        adsb_type: text_in(lookup(members, Field::AdsbType.wire())),
        flight: text_if(lookup(members, Field::Flight.wire())),
        aircraft_registration: text_in(lookup(members, Field::AircraftRegistration.wire())),
        aircraft_type: text_if(lookup(members, Field::AircraftType.wire())),
        altitude: altitude_in(lookup(members, Field::Altitude.wire())),
        alt_geom: int32_if(lookup(members, Field::AltGeom.wire())),
        gs: number_if(lookup(members, Field::Gs.wire())),
        track: number_if(lookup(members, Field::Track.wire())),
        baro_rate: int32_if(lookup(members, Field::BaroRate.wire())),
        geom_rate: int32_if(lookup(members, Field::GeomRate.wire())),
        squawk: text_if(lookup(members, Field::Squawk.wire())),
        emergency: text_if(lookup(members, Field::Emergency.wire())),
        category: text_if(lookup(members, Field::Category.wire())),
        nav_qnh: number_if(lookup(members, Field::NavQnh.wire())),
        nav_altitude_mcp: int32_if(lookup(members, Field::NavAltitudeMcp.wire())),
        nav_heading: number_if(lookup(members, Field::NavHeading.wire())),
        nav_modes: modes_if(lookup(members, Field::NavModes.wire())),
        lat: number_in(lookup(members, Field::Lat.wire())),
        lon: number_in(lookup(members, Field::Lon.wire())),
        nic: int32_in(lookup(members, Field::Nic.wire())),
        rc: int32_in(lookup(members, Field::Rc.wire())),
        seen_pos: number_if(lookup(members, Field::SeenPos.wire())),
        seen: number_in(lookup(members, Field::Seen.wire())),
        r_dst: number_in(lookup(members, Field::RDst.wire())),
        r_dir: number_in(lookup(members, Field::RDir.wire())),
        version: int32_in(lookup(members, Field::Version.wire())),
        nic_baro: int8_if(lookup(members, Field::NicBaro.wire())),
        nac_p: int8_in(lookup(members, Field::NacP.wire())),
        nac_v: int8_if(lookup(members, Field::NacV.wire())),
        sil: int8_in(lookup(members, Field::Sil.wire())),
        sil_type: sil_type_in(lookup(members, Field::SilType.wire())),
        gva: int8_if(lookup(members, Field::Gva.wire())),
        sda: int8_if(lookup(members, Field::Sda.wire())),
        alert: int8_if(lookup(members, Field::Alert.wire())),
        spi: int8_if(lookup(members, Field::Spi.wire())),
        mlat: texts_in(lookup(members, Field::Mlat.wire())),
        tisb: texts_in(lookup(members, Field::Tisb.wire())),
        messages: int32_in(lookup(members, Field::Messages.wire())),
        rssi: number_in(lookup(members, Field::Rssi.wire())),
        dbflags: int32_if(lookup(members, Field::Dbflags.wire())),
        calc_track: int32_if(lookup(members, Field::CalcTrack.wire())),
    }
}

/// What decoding makes of the members of an object.
pub open spec fn outcome_of_members(members: Seq<(Seq<char>, JsonModel)>) -> Result<
    MessageModel,
    DecodeErrorModel,
> {
    match unknown_from(members, 0) {
        Some(key) => Err(DecodeErrorModel::UnknownField(key)),
        None => match missing_from(members, 0) {
            Some(field) => Err(DecodeErrorModel::MissingField(field.wire())),
            None => match fault_from(members, 0) {
                Some(error) => Err(error),
                None => Ok(assemble(members)),
            },
        },
    }
}

/// What decoding makes of a document. One that is no object is a mismatch
/// at the root, which has the empty name.
pub open spec fn outcome_of_doc(doc: JsonModel) -> Result<MessageModel, DecodeErrorModel> {
    match doc {
        JsonModel::Object(members) => outcome_of_members(members),
        _ => Err(DecodeErrorModel::TypeMismatch(Seq::empty(), Expected::Object, shape_of(doc))),
    }
}

/// What decoding makes of what the parser made of a text. A text that the
/// parser rejects is malformed, with the parser's own message.
pub open spec fn outcome_of_parse(parse: Result<JsonModel, Seq<char>>) -> Result<
    MessageModel,
    DecodeErrorModel,
> {
    match parse {
        Ok(doc) => outcome_of_doc(doc),
        Err(message) => Err(DecodeErrorModel::MalformedJson(message)),
    }
}

/// What decoding makes of a text.
pub open spec fn outcome_of_text(text: Seq<char>) -> Result<MessageModel, DecodeErrorModel> {
    outcome_of_parse(parsed(text))
}

/// What the result of a decoder denotes.
pub open spec fn decoded_model(result: Result<ADSBJsonMessage, DecodeError>) -> Result<
    MessageModel,
    DecodeErrorModel,
> {
    match result {
        Ok(message) => Ok(message@),
        Err(error) => Err(error@),
    }
}

/// The first key that is no wire name of the schema, if there is one.
pub fn find_unknown(members: &Vec<Member>) -> (key: Option<String>)
    ensures
        maybe_text_model(key) == unknown_from(members_model(members@), 0),
{
    let ghost model = members_model(members@);
    let mut i: usize = 0;
    while i < members.len()
        invariant
            i <= members.len(),
            model == members_model(members@),
            unknown_from(model, 0) == unknown_from(model, i as nat),
        decreases members.len() - i,
    {
        assert(model[i as int].0 == members@[i as int].key@);
        if Field::from_wire(members[i].key.as_str()).is_none() {
            return Some(members[i].key.clone());
        }
        i = i + 1;
    }
    None
}

/// The first required field that the members lack, if there is one.
pub fn find_missing(members: &Vec<Member>) -> (field: Option<Field>)
    ensures
        field == missing_from(members_model(members@), 0),
{
    let ghost model = members_model(members@);
    let mut place: usize = 0;
    while place < FIELD_COUNT
        invariant
            place <= FIELD_COUNT,
            model == members_model(members@),
            missing_from(model, 0) == missing_from(model, place as nat),
        decreases FIELD_COUNT - place,
    {
        match Field::nth(place) {
            Some(field) => {
                if field.is_required() && find(members, field.wire_name()).is_none() {
                    return Some(field);
                }
            },
            None => {},
        }
        place = place + 1;
    }
    None
}

/// The fault of the first field whose value is ill-shaped, if there is one.
pub fn find_fault(members: &Vec<Member>) -> (error: Option<DecodeError>)
    ensures
        fault_model(error) == fault_from(members_model(members@), 0),
{
    let ghost model = members_model(members@);
    let mut place: usize = 0;
    while place < FIELD_COUNT
        invariant
            place <= FIELD_COUNT,
            model == members_model(members@),
            fault_from(model, 0) == fault_from(model, place as nat),
        decreases FIELD_COUNT - place,
    {
        match Field::nth(place) {
            Some(field) => {
                match find(members, field.wire_name()) {
                    Some(value) => {
                        match check(field, value) {
                            Some(error) => {
                                return Some(error);
                            },
                            None => {},
                        }
                    },
                    None => {},
                }
            },
            None => {},
        }
        place = place + 1;
    }
    None
}

/// The message whose attributes are what the members hold under the wire
/// names.
pub fn build(members: &Vec<Member>) -> (message: ADSBJsonMessage)
    ensures
        message@ == assemble(members_model(members@)),
{
    ADSBJsonMessage {
        now: read_number(find(members, Field::Now.wire_name())),
        hex: read_text(find(members, Field::Hex.wire_name())),
        adsb_type: read_text(find(members, Field::AdsbType.wire_name())),
        flight: read_text_if(find(members, Field::Flight.wire_name())),
        aircraft_registration: read_text(find(members, Field::AircraftRegistration.wire_name())),
        aircraft_type: read_text_if(find(members, Field::AircraftType.wire_name())),
        altitude: read_altitude(find(members, Field::Altitude.wire_name())),
        alt_geom: read_int32_if(find(members, Field::AltGeom.wire_name())),
        gs: read_number_if(find(members, Field::Gs.wire_name())),
        track: read_number_if(find(members, Field::Track.wire_name())),
        baro_rate: read_int32_if(find(members, Field::BaroRate.wire_name())),
        geom_rate: read_int32_if(find(members, Field::GeomRate.wire_name())),
        squawk: read_text_if(find(members, Field::Squawk.wire_name())),
        emergency: read_text_if(find(members, Field::Emergency.wire_name())),
        category: read_text_if(find(members, Field::Category.wire_name())),
        nav_qnh: read_number_if(find(members, Field::NavQnh.wire_name())),
        nav_altitude_mcp: read_int32_if(find(members, Field::NavAltitudeMcp.wire_name())),
        nav_heading: read_number_if(find(members, Field::NavHeading.wire_name())),
        nav_modes: read_modes_if(find(members, Field::NavModes.wire_name())),
        lat: read_number(find(members, Field::Lat.wire_name())),
        lon: read_number(find(members, Field::Lon.wire_name())),
        nic: read_int32(find(members, Field::Nic.wire_name())),
        rc: read_int32(find(members, Field::Rc.wire_name())),
        seen_pos: read_number_if(find(members, Field::SeenPos.wire_name())),
        seen: read_number(find(members, Field::Seen.wire_name())),
        r_dst: read_number(find(members, Field::RDst.wire_name())),
        r_dir: read_number(find(members, Field::RDir.wire_name())),
        version: read_int32(find(members, Field::Version.wire_name())),
        nic_baro: read_int8_if(find(members, Field::NicBaro.wire_name())),
        nac_p: read_int8(find(members, Field::NacP.wire_name())),
        nac_v: read_int8_if(find(members, Field::NacV.wire_name())),
        sil: read_int8(find(members, Field::Sil.wire_name())),
        sil_type: read_sil_type(find(members, Field::SilType.wire_name())),
        gva: read_int8_if(find(members, Field::Gva.wire_name())),
        sda: read_int8_if(find(members, Field::Sda.wire_name())),
        alert: read_int8_if(find(members, Field::Alert.wire_name())),
        spi: read_int8_if(find(members, Field::Spi.wire_name())),
        mlat: read_texts(find(members, Field::Mlat.wire_name())),
        tisb: read_texts(find(members, Field::Tisb.wire_name())),
        messages: read_int32(find(members, Field::Messages.wire_name())),
        rssi: read_number(find(members, Field::Rssi.wire_name())),
        dbflags: read_int32_if(find(members, Field::Dbflags.wire_name())),
        calc_track: read_int32_if(find(members, Field::CalcTrack.wire_name())),
    }
}

/// Decodes the members of an object.
pub fn decode_members(members: &Vec<Member>) -> (result: Result<ADSBJsonMessage, DecodeError>)
    ensures
        decoded_model(result) == outcome_of_members(members_model(members@)),
{
    match find_unknown(members) {
        Some(key) => {
            return Err(DecodeError::UnknownField(key));
        },
        None => {},
    }
    match find_missing(members) {
        Some(field) => {
            return Err(DecodeError::MissingField(field.wire_name().to_owned()));
        },
        None => {},
    }
    match find_fault(members) {
        Some(error) => {
            return Err(error);
        },
        None => {},
    }
    Ok(build(members))
}

/// Decodes a document.
pub fn decode_doc(doc: &Json) -> (result: Result<ADSBJsonMessage, DecodeError>)
    ensures
        decoded_model(result) == outcome_of_doc(doc@),
{
    match doc {
        Json::Object(members) => {
            proof {
                Json::object_view(*members);
            }
            decode_members(members)
        },
        _ => Err(DecodeError::TypeMismatch(String::new(), Expected::Object, doc.shape())),
    }
}

/// Decodes what the parser made of a text.
pub fn decode_parsed(parse: Result<Json, String>) -> (result: Result<ADSBJsonMessage, DecodeError>)
    ensures
        decoded_model(result) == outcome_of_parse(parse_model(parse)),
{
    match parse {
        Ok(doc) => decode_doc(&doc),
        Err(message) => Err(DecodeError::MalformedJson(message)),
    }
}

/// Decodes a text.
pub fn decode_text(text: &str) -> (result: Result<ADSBJsonMessage, DecodeError>)
    ensures
        decoded_model(result) == outcome_of_text(text@),
{
    decode_parsed(parse(text))
}

} // verus!
