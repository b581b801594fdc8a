//! The aircraft message and the values that only it uses.

use crate::codec::{copy_modes_if, copy_number_if, copy_text_if, copy_texts, texts_model};
use crate::decode::{decode_doc, decode_text, decoded_model, outcome_of_doc, outcome_of_text};
use crate::encode::{
    bytes_of, doc_of, encode_bytes, encode_doc, encode_line, encode_line_bytes, encode_text,
    encoded_bytes_model, encoded_model, line_bytes_of, line_of, text_of,
};
use crate::error::{DecodeError, EncodeError};
use crate::json::{same_text, Json};
use crate::number::{JsonNumber, NumberModel};
use vstd::prelude::*;

verus! {

/// The barometric altitude of an aircraft: a number of feet, or the fact
/// that it stands on the ground.
#[derive(Clone, Copy, Debug, PartialEq, Eq, Structural)]
pub enum Altitude {
    /// Feet above the pressure datum.
    Numeric(i32),
    /// On the ground; on the wire the string `ground`.
    OnGround,
}

impl Default for Altitude {
    /// Zero feet.
    fn default() -> (altitude: Altitude)
        ensures
            altitude == Altitude::Numeric(0),
    {
        Altitude::Numeric(0)
    }
}

/// A navigation mode that an aircraft reports as engaged.
#[derive(Clone, Copy, Debug, PartialEq, Eq, Structural)]
pub enum NavModes {
    AltHold,
    AutoPilot,
    VNAV,
    TCAS,
}

impl NavModes {
    /// The token that stands for the mode on the wire.
    pub open spec fn token(self) -> Seq<char> {
        match self {
            NavModes::AltHold => "althold"@,
            NavModes::AutoPilot => "autopilot"@,
            NavModes::VNAV => "vnav"@,
            NavModes::TCAS => "tcas"@,
        }
    }

    /// The token that stands for the mode on the wire.
    pub fn wire_token(self) -> (token: &'static str)
        ensures
            token@ == self.token(),
    {
        match self {
            NavModes::AltHold => "althold",
            NavModes::AutoPilot => "autopilot",
            NavModes::VNAV => "vnav",
            NavModes::TCAS => "tcas",
        }
    }

    /// The mode that a token stands for, if it stands for one. Tokens are
    /// matched exactly, lower case as they are.
    pub open spec fn of_token(token: Seq<char>) -> Option<NavModes> {
        if token == "althold"@ {
            Some(NavModes::AltHold)
        } else if token == "autopilot"@ {
            Some(NavModes::AutoPilot)
        } else if token == "vnav"@ {
            Some(NavModes::VNAV)
        } else if token == "tcas"@ {
            Some(NavModes::TCAS)
        } else {
            None
        }
    }

    /// The mode that a token stands for, if it stands for one.
    pub fn from_token(token: &str) -> (mode: Option<NavModes>)
        ensures
            mode == NavModes::of_token(token@),
    {
        if same_text(token, "althold") {
            Some(NavModes::AltHold)
        } else if same_text(token, "autopilot") {
            Some(NavModes::AutoPilot)
        } else if same_text(token, "vnav") {
            Some(NavModes::VNAV)
        } else if same_text(token, "tcas") {
            Some(NavModes::TCAS)
        } else {
            None
        }
    }

    /// A token leads back to its mode: no two modes share one.
    pub proof fn tokens()
        ensures
            forall|mode: NavModes| NavModes::of_token(#[trigger] mode.token()) == Some(mode),
            forall|token: Seq<char>| #[trigger]
                NavModes::of_token(token) matches Some(mode) ==> mode.token() == token,
    {
        reveal_strlit("althold");
        reveal_strlit("autopilot");
        reveal_strlit("vnav");
        reveal_strlit("tcas");
        assert("althold"@.len() == 7);
        assert("autopilot"@.len() == 9);
        assert("vnav"@[0] == 'v');
        assert("tcas"@[0] == 't');
    }
}

/// How the source integrity level of a message is to be read.
#[derive(Clone, Copy, Debug, PartialEq, Eq, Structural)]
pub enum SilType {
    PerHour,
    Unknown,
}

impl SilType {
    /// The token that stands for the value on the wire.
    pub open spec fn token(self) -> Seq<char> {
        match self {
            SilType::PerHour => "perhour"@,
            SilType::Unknown => "unknown"@,
        }
    }

    /// The token that stands for the value on the wire.
    pub fn wire_token(self) -> (token: &'static str)
        ensures
            token@ == self.token(),
    {
        match self {
            SilType::PerHour => "perhour",
            SilType::Unknown => "unknown",
        }
    }

    /// The value that a token stands for, if it stands for one.
    pub open spec fn of_token(token: Seq<char>) -> Option<SilType> {
        if token == "perhour"@ {
            Some(SilType::PerHour)
        } else if token == "unknown"@ {
            Some(SilType::Unknown)
        } else {
            None
        }
    }

    /// The value that a token stands for, if it stands for one.
    pub fn from_token(token: &str) -> (value: Option<SilType>)
        ensures
            value == SilType::of_token(token@),
    {
        if same_text(token, "perhour") {
            Some(SilType::PerHour)
        } else if same_text(token, "unknown") {
            Some(SilType::Unknown)
        } else {
            None
        }
    }

    /// A token leads back to its value: the two values have different ones.
    pub proof fn tokens()
        ensures
            forall|value: SilType| SilType::of_token(#[trigger] value.token()) == Some(value),
            forall|token: Seq<char>| #[trigger]
                SilType::of_token(token) matches Some(value) ==> value.token() == token,
    {
        reveal_strlit("perhour");
        reveal_strlit("unknown");
        assert("perhour"@[0] == 'p');
        assert("unknown"@[0] == 'u');
    }
}

impl Default for SilType {
    /// `Unknown`: a message that says nothing of the kind claims nothing.
    fn default() -> (value: SilType)
        ensures
            value == SilType::Unknown,
    {
        SilType::Unknown
    }
}

/// What a number that may be there denotes.
pub open spec fn maybe_number_model(number: Option<JsonNumber>) -> Option<NumberModel> {
    match number {
        Some(n) => Some(n@),
        None => None,
    }
}

/// What a string that may be there denotes.
pub open spec fn maybe_text_model(text: Option<String>) -> Option<Seq<char>> {
    match text {
        Some(t) => Some(t@),
        None => None,
    }
}

/// What a list of navigation modes that may be there denotes.
pub open spec fn maybe_modes_model(modes: Option<Vec<NavModes>>) -> Option<Seq<NavModes>> {
    match modes {
        Some(m) => Some(m@),
        None => None,
    }
}

/// What a message denotes: every attribute as a plain value.
pub struct MessageModel {
    pub now: NumberModel,
    pub hex: Seq<char>,
    pub adsb_type: Seq<char>,
    pub flight: Option<Seq<char>>,
    pub aircraft_registration: Seq<char>,
    pub aircraft_type: Option<Seq<char>>,
    pub altitude: Altitude,
    pub alt_geom: Option<i32>,
    pub gs: Option<NumberModel>,
    pub track: Option<NumberModel>,
    pub baro_rate: Option<i32>,
    pub geom_rate: Option<i32>,
    pub squawk: Option<Seq<char>>,
    pub emergency: Option<Seq<char>>,
    pub category: Option<Seq<char>>,
    pub nav_qnh: Option<NumberModel>,
    pub nav_altitude_mcp: Option<i32>,
    pub nav_heading: Option<NumberModel>,
    pub nav_modes: Option<Seq<NavModes>>,
    pub lat: NumberModel,
    pub lon: NumberModel,
    pub nic: i32,
    pub rc: i32,
    pub seen_pos: Option<NumberModel>,
    pub seen: NumberModel,
    pub r_dst: NumberModel,
    pub r_dir: NumberModel,
    pub version: i32,
    pub nic_baro: Option<i8>,
    pub nac_p: i8,
    pub nac_v: Option<i8>,
    pub sil: i8,
    pub sil_type: SilType,
    pub gva: Option<i8>,
    pub sda: Option<i8>,
    pub alert: Option<i8>,
    pub spi: Option<i8>,
    pub mlat: Seq<Seq<char>>,
    pub tisb: Seq<Seq<char>>,
    pub messages: i32,
    pub rssi: NumberModel,
    pub dbflags: Option<i32>,
    pub calc_track: Option<i32>,
}

/// One observation of one aircraft.
///
/// An optional attribute that is `None` was not reported; on the wire its
/// key is left out. The measurements that travel as numbers with a
/// fraction are kept as the JSON numbers that they arrived as, so that
/// nothing is rounded on the way through.
#[derive(Debug, PartialEq)]
pub struct ADSBJsonMessage {
    /// When the message was made, in seconds since the epoch.
    pub now: JsonNumber,
    /// The 24-bit ICAO address of the aircraft, in hexadecimal.
    pub hex: String,
    /// The kind of source the data came from. Wire name `type`.
    pub adsb_type: String,
    /// The callsign.
    pub flight: Option<String>,
    /// The registration. Wire name `r`.
    pub aircraft_registration: String,
    /// The type of the aircraft. Wire name `t`.
    pub aircraft_type: Option<String>,
    /// The barometric altitude. Wire name `alt_baro`.
    pub altitude: Altitude,
    /// The geometric altitude, in feet.
    pub alt_geom: Option<i32>,
    /// The ground speed, in knots.
    pub gs: Option<JsonNumber>,
    /// The track over ground, in degrees.
    pub track: Option<JsonNumber>,
    /// The rate of change of the barometric altitude.
    pub baro_rate: Option<i32>,
    /// The rate of change of the geometric altitude.
    pub geom_rate: Option<i32>,
    /// The transponder code.
    pub squawk: Option<String>,
    /// The emergency status.
    pub emergency: Option<String>,
    /// The emitter category.
    pub category: Option<String>,
    /// The altimeter setting.
    pub nav_qnh: Option<JsonNumber>,
    /// The altitude selected on the mode control panel.
    pub nav_altitude_mcp: Option<i32>,
    /// The selected heading.
    pub nav_heading: Option<JsonNumber>,
    /// The navigation modes that are engaged.
    pub nav_modes: Option<Vec<NavModes>>,
    /// The latitude, in degrees.
    pub lat: JsonNumber,
    /// The longitude, in degrees.
    pub lon: JsonNumber,
    /// The navigation integrity category.
    pub nic: i32,
    /// The radius of containment, in metres.
    pub rc: i32,
    /// Seconds since the position was last updated.
    pub seen_pos: Option<JsonNumber>,
    /// Seconds since a message was last received.
    pub seen: JsonNumber,
    /// The distance from the receiver.
    pub r_dst: JsonNumber,
    /// The direction from the receiver.
    pub r_dir: JsonNumber,
    /// The ADS-B version.
    pub version: i32,
    /// The navigation integrity category of the barometric altitude.
    pub nic_baro: Option<i8>,
    /// The navigation accuracy category for position.
    pub nac_p: i8,
    /// The navigation accuracy category for velocity.
    pub nac_v: Option<i8>,
    /// The source integrity level.
    pub sil: i8,
    /// How the source integrity level is to be read.
    pub sil_type: SilType,
    /// The geometric vertical accuracy.
    pub gva: Option<i8>,
    /// The system design assurance.
    pub sda: Option<i8>,
    /// The alert bit.
    pub alert: Option<i8>,
    /// The special position identification bit.
    pub spi: Option<i8>,
    /// The fields that were derived by multilateration.
    pub mlat: Vec<String>,
    /// The fields that were relayed by TIS-B.
    pub tisb: Vec<String>,
    /// The number of messages received from the aircraft.
    pub messages: i32,
    /// The signal strength.
    pub rssi: JsonNumber,
    /// Flags from the aircraft database. Wire name `dbFlags`.
    pub dbflags: Option<i32>,
    /// The track computed from successive positions.
    pub calc_track: Option<i32>,
}

impl ADSBJsonMessage {
    pub open spec fn view(&self) -> MessageModel {
        MessageModel {
            now: self.now@,
            hex: self.hex@,
            adsb_type: self.adsb_type@,
            flight: maybe_text_model(self.flight),
            aircraft_registration: self.aircraft_registration@,
            aircraft_type: maybe_text_model(self.aircraft_type),
            altitude: self.altitude,
            alt_geom: self.alt_geom,
            gs: maybe_number_model(self.gs),
            track: maybe_number_model(self.track),
            baro_rate: self.baro_rate,
            geom_rate: self.geom_rate,
            squawk: maybe_text_model(self.squawk),
            emergency: maybe_text_model(self.emergency),
            category: maybe_text_model(self.category),
            nav_qnh: maybe_number_model(self.nav_qnh),
            nav_altitude_mcp: self.nav_altitude_mcp,
            nav_heading: maybe_number_model(self.nav_heading),
            nav_modes: maybe_modes_model(self.nav_modes),
            lat: self.lat@,
            lon: self.lon@,
            nic: self.nic,
            rc: self.rc,
            seen_pos: maybe_number_model(self.seen_pos),
            seen: self.seen@,
            r_dst: self.r_dst@,
            r_dir: self.r_dir@,
            version: self.version,
            nic_baro: self.nic_baro,
            nac_p: self.nac_p,
            nac_v: self.nac_v,
            sil: self.sil,
            sil_type: self.sil_type,
            gva: self.gva,
            sda: self.sda,
            alert: self.alert,
            spi: self.spi,
            mlat: texts_model(self.mlat@),
            tisb: texts_model(self.tisb@),
            messages: self.messages,
            rssi: self.rssi@,
            dbflags: self.dbflags,
            calc_track: self.calc_track,
        }
    }
}

/// The message in which nothing is reported: every number zero, every
/// string and list empty, every optional attribute absent.
pub open spec fn blank() -> MessageModel {
    MessageModel {
        now: NumberModel::Integer(0),
        hex: Seq::empty(),
        adsb_type: Seq::empty(),
        flight: None,
        aircraft_registration: Seq::empty(),
        aircraft_type: None,
        altitude: Altitude::Numeric(0),
        alt_geom: None,
        gs: None,
        track: None,
        baro_rate: None,
        geom_rate: None,
        squawk: None,
        emergency: None,
        category: None,
        nav_qnh: None,
        nav_altitude_mcp: None,
        nav_heading: None,
        nav_modes: None,
        lat: NumberModel::Integer(0),
        lon: NumberModel::Integer(0),
        nic: 0,
        rc: 0,
        seen_pos: None,
        seen: NumberModel::Integer(0),
        r_dst: NumberModel::Integer(0),
        r_dir: NumberModel::Integer(0),
        version: 0,
        nic_baro: None,
        nac_p: 0,
        nac_v: None,
        sil: 0,
        sil_type: SilType::Unknown,
        gva: None,
        sda: None,
        alert: None,
        spi: None,
        mlat: Seq::empty(),
        tisb: Seq::empty(),
        messages: 0,
        rssi: NumberModel::Integer(0),
        dbflags: None,
        calc_track: None,
    }
}

impl Default for ADSBJsonMessage {
    /// The message in which nothing is reported.
    fn default() -> (message: ADSBJsonMessage)
        ensures
            message@ == blank(),
    {
        let message = ADSBJsonMessage {
            now: JsonNumber::PosInt(0),
            hex: String::new(),
            adsb_type: String::new(),
            flight: None,
            aircraft_registration: String::new(),
            aircraft_type: None,
            altitude: Altitude::Numeric(0),
            alt_geom: None,
            gs: None,
            track: None,
            baro_rate: None,
            geom_rate: None,
            squawk: None,
            emergency: None,
            category: None,
            nav_qnh: None,
            nav_altitude_mcp: None,
            nav_heading: None,
            nav_modes: None,
            lat: JsonNumber::PosInt(0),
            lon: JsonNumber::PosInt(0),
            nic: 0,
            rc: 0,
            seen_pos: None,
            seen: JsonNumber::PosInt(0),
            r_dst: JsonNumber::PosInt(0),
            r_dir: JsonNumber::PosInt(0),
            version: 0,
            nic_baro: None,
            nac_p: 0,
            nac_v: None,
            sil: 0,
            sil_type: SilType::Unknown,
            gva: None,
            sda: None,
            alert: None,
            spi: None,
            mlat: Vec::new(),
            tisb: Vec::new(),
            messages: 0,
            rssi: JsonNumber::PosInt(0),
            dbflags: None,
            calc_track: None,
        };
        assert(texts_model(message.mlat@) =~= Seq::empty());
        assert(texts_model(message.tisb@) =~= Seq::empty());
        message
    }
}

impl Clone for ADSBJsonMessage {
    fn clone(&self) -> (copy: ADSBJsonMessage)
        ensures
            copy@ == self@,
    {
        self.duplicate()
    }
}

impl ADSBJsonMessage {
    /// A copy of the message.
    pub fn duplicate(&self) -> (copy: ADSBJsonMessage)
        ensures
            copy@ == self@,
    {
        ADSBJsonMessage {
            now: self.now.duplicate(),
            hex: self.hex.clone(),
            adsb_type: self.adsb_type.clone(),
            flight: copy_text_if(&self.flight),
            aircraft_registration: self.aircraft_registration.clone(),
            aircraft_type: copy_text_if(&self.aircraft_type),
            altitude: self.altitude,
            alt_geom: self.alt_geom,
            gs: copy_number_if(&self.gs),
            track: copy_number_if(&self.track),
            baro_rate: self.baro_rate,
            geom_rate: self.geom_rate,
            squawk: copy_text_if(&self.squawk),
            emergency: copy_text_if(&self.emergency),
            category: copy_text_if(&self.category),
            nav_qnh: copy_number_if(&self.nav_qnh),
            nav_altitude_mcp: self.nav_altitude_mcp,
            nav_heading: copy_number_if(&self.nav_heading),
            nav_modes: copy_modes_if(&self.nav_modes),
            lat: self.lat.duplicate(),
            lon: self.lon.duplicate(),
            nic: self.nic,
            rc: self.rc,
            seen_pos: copy_number_if(&self.seen_pos),
            seen: self.seen.duplicate(),
            r_dst: self.r_dst.duplicate(),
            r_dir: self.r_dir.duplicate(),
            version: self.version,
            nic_baro: self.nic_baro,
            nac_p: self.nac_p,
            nac_v: self.nac_v,
            sil: self.sil,
            sil_type: self.sil_type,
            gva: self.gva,
            sda: self.sda,
            alert: self.alert,
            spi: self.spi,
            mlat: copy_texts(&self.mlat),
            tisb: copy_texts(&self.tisb),
            messages: self.messages,
            rssi: self.rssi.duplicate(),
            dbflags: self.dbflags,
            calc_track: self.calc_track,
        }
    }

    /// Decodes a message from a JSON document.
    pub fn from_json(doc: &Json) -> (result: Result<ADSBJsonMessage, DecodeError>)
        ensures
            decoded_model(result) == outcome_of_doc(doc@),
    {
        decode_doc(doc)
    }

    /// Decodes a message from its wire text: one JSON object.
    pub fn decode(text: &str) -> (result: Result<ADSBJsonMessage, DecodeError>)
        ensures
            decoded_model(result) == outcome_of_text(text@),
    {
        decode_text(text)
    }

    /// The JSON document that stands for the message.
    pub fn to_json(&self) -> (doc: Json)
        ensures
            doc@ == doc_of(self@),
    {
        encode_doc(self)
    }

    /// The wire text of the message.
    pub fn to_string(&self) -> (result: Result<String, EncodeError>)
        ensures
            encoded_model(result) == text_of(self@),
    {
        encode_text(self)
    }

    /// The wire text of the message, with a line feed behind it.
    pub fn to_string_newline(&self) -> (result: Result<String, EncodeError>)
        ensures
            encoded_model(result) == line_of(self@),
    {
        encode_line(self)
    }

    /// The wire text of the message as UTF-8 bytes.
    pub fn to_bytes(&self) -> (result: Result<Vec<u8>, EncodeError>)
        ensures
            encoded_bytes_model(result) == bytes_of(self@),
    {
        encode_bytes(self)
    }

    /// The wire text of the message with a line feed behind it, as UTF-8
    /// bytes.
    pub fn to_bytes_newline(&self) -> (result: Result<Vec<u8>, EncodeError>)
        ensures
            encoded_bytes_model(result) == line_bytes_of(self@),
    {
        encode_line_bytes(self)
    }
}

/// Decoding of a message from whatever holds its wire text.
///
/// The text must be one JSON object; it is read, not consumed.
pub trait NewADSBJsonMessage {
    /// The text that the value holds.
    spec fn wire_text(&self) -> Seq<char>;

    /// Decodes the text as a message.
    fn to_adsb(&self) -> (result: Result<ADSBJsonMessage, DecodeError>)
        ensures
            decoded_model(result) == outcome_of_text(self.wire_text()),
    ;
}

impl NewADSBJsonMessage for String {
    open spec fn wire_text(&self) -> Seq<char> {
        self@
    }

    fn to_adsb(&self) -> (result: Result<ADSBJsonMessage, DecodeError>) {
        decode_text(self.as_str())
    }
}

impl NewADSBJsonMessage for str {
    open spec fn wire_text(&self) -> Seq<char> {
        self@
    }

    fn to_adsb(&self) -> (result: Result<ADSBJsonMessage, DecodeError>) {
        decode_text(self)
    }
}

} // verus!
