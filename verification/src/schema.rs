//! The message schema: which fields a message has, under which name each
//! travels, which of them must be present, and what kind of value each holds.
//!
//! The order of the fields here is the order in which an encoded message
//! lists them, and the order in which a decoder looks for missing or
//! ill-shaped ones.

use crate::json::same_text;
use vstd::prelude::*;

verus! {

/// The number of fields in the schema.
pub const FIELD_COUNT: usize = 43;

/// The kind of value that a field holds on the wire.
#[derive(Clone, Copy, Debug, PartialEq, Eq, Structural)]
pub enum Kind {
    /// Any JSON number.
    Number,
    /// An integer that fits 32 bits.
    Int32,
    /// An integer that fits 8 bits.
    Int8,
    /// A string.
    Text,
    /// An array of strings.
    TextList,
    /// An integer that fits 32 bits, or the string `ground`.
    Altitude,
    /// One of the tokens of the integrity-level type.
    SilType,
    /// An array of navigation-mode tokens.
    NavModes,
}

/// A field of the message.
#[derive(Clone, Copy, Debug, PartialEq, Eq, Structural)]
pub enum Field {
    Now,
    Hex,
    AdsbType,
    Flight,
    AircraftRegistration,
    AircraftType,
    Altitude,
    AltGeom,
    Gs,
    Track,
    BaroRate,
    GeomRate,
    Squawk,
    Emergency,
    Category,
    NavQnh,
    NavAltitudeMcp,
    NavHeading,
    NavModes,
    Lat,
    Lon,
    Nic,
    Rc,
    SeenPos,
    Seen,
    RDst,
    RDir,
    Version,
    NicBaro,
    NacP,
    NacV,
    Sil,
    SilType,
    Gva,
    Sda,
    Alert,
    Spi,
    Mlat,
    Tisb,
    Messages,
    Rssi,
    Dbflags,
    CalcTrack,
}

impl Field {
    /// The name under which the field travels.
    pub open spec fn wire(self) -> Seq<char> {
        match self {
            Field::Now => "now"@,
            Field::Hex => "hex"@,
            Field::AdsbType => "type"@,
            Field::Flight => "flight"@,
            Field::AircraftRegistration => "r"@,
            Field::AircraftType => "t"@,
            Field::Altitude => "alt_baro"@,
            Field::AltGeom => "alt_geom"@,
            Field::Gs => "gs"@,
            Field::Track => "track"@,
            Field::BaroRate => "baro_rate"@,
            Field::GeomRate => "geom_rate"@,
            Field::Squawk => "squawk"@,
            Field::Emergency => "emergency"@,
            Field::Category => "category"@,
            Field::NavQnh => "nav_qnh"@,
            Field::NavAltitudeMcp => "nav_altitude_mcp"@,
            Field::NavHeading => "nav_heading"@,
            Field::NavModes => "nav_modes"@,
            Field::Lat => "lat"@,
            Field::Lon => "lon"@,
            Field::Nic => "nic"@,
            Field::Rc => "rc"@,
            Field::SeenPos => "seen_pos"@,
            Field::Seen => "seen"@,
            Field::RDst => "r_dst"@,
            Field::RDir => "r_dir"@,
            Field::Version => "version"@,
            Field::NicBaro => "nic_baro"@,
            Field::NacP => "nac_p"@,
            Field::NacV => "nac_v"@,
            Field::Sil => "sil"@,
            Field::SilType => "sil_type"@,
            Field::Gva => "gva"@,
            Field::Sda => "sda"@,
            Field::Alert => "alert"@,
            Field::Spi => "spi"@,
            Field::Mlat => "mlat"@,
            Field::Tisb => "tisb"@,
            Field::Messages => "messages"@,
            Field::Rssi => "rssi"@,
            Field::Dbflags => "dbFlags"@,
            Field::CalcTrack => "calc_track"@,
        }
    }

    /// The name under which the field travels.
    pub fn wire_name(self) -> (name: &'static str)
        ensures
            name@ == self.wire(),
    {
        match self {
            Field::Now => "now",
            Field::Hex => "hex",
            Field::AdsbType => "type",
            Field::Flight => "flight",
            Field::AircraftRegistration => "r",
            Field::AircraftType => "t",
            Field::Altitude => "alt_baro",
            Field::AltGeom => "alt_geom",
            Field::Gs => "gs",
            Field::Track => "track",
            Field::BaroRate => "baro_rate",
            Field::GeomRate => "geom_rate",
            Field::Squawk => "squawk",
            Field::Emergency => "emergency",
            Field::Category => "category",
            Field::NavQnh => "nav_qnh",
            Field::NavAltitudeMcp => "nav_altitude_mcp",
            Field::NavHeading => "nav_heading",
            Field::NavModes => "nav_modes",
            Field::Lat => "lat",
            Field::Lon => "lon",
            Field::Nic => "nic",
            Field::Rc => "rc",
            Field::SeenPos => "seen_pos",
            Field::Seen => "seen",
            Field::RDst => "r_dst",
            Field::RDir => "r_dir",
            Field::Version => "version",
            Field::NicBaro => "nic_baro",
            Field::NacP => "nac_p",
            Field::NacV => "nac_v",
            Field::Sil => "sil",
            Field::SilType => "sil_type",
            Field::Gva => "gva",
            Field::Sda => "sda",
            Field::Alert => "alert",
            Field::Spi => "spi",
            Field::Mlat => "mlat",
            Field::Tisb => "tisb",
            Field::Messages => "messages",
            Field::Rssi => "rssi",
            Field::Dbflags => "dbFlags",
            Field::CalcTrack => "calc_track",
        }
    }

    /// Whether a message must have the field.
    pub open spec fn required(self) -> bool {
        match self {
            Field::Now | Field::Hex | Field::AdsbType | Field::AircraftRegistration
            | Field::Altitude | Field::Lat | Field::Lon | Field::Nic
            | Field::Rc | Field::Seen | Field::RDst | Field::RDir
            | Field::Version | Field::NacP | Field::Sil | Field::SilType
            | Field::Mlat | Field::Tisb | Field::Messages | Field::Rssi
            => true,
            _ => false,
        }
    }

    /// Whether a message must have the field.
    pub fn is_required(self) -> (yes: bool)
        ensures
            yes == self.required(),
    {
        match self {
            Field::Now | Field::Hex | Field::AdsbType | Field::AircraftRegistration
            | Field::Altitude | Field::Lat | Field::Lon | Field::Nic
            | Field::Rc | Field::Seen | Field::RDst | Field::RDir
            | Field::Version | Field::NacP | Field::Sil | Field::SilType
            | Field::Mlat | Field::Tisb | Field::Messages | Field::Rssi
            => true,
            _ => false,
        }
    }

    /// The kind of value that the field holds.
    pub open spec fn kind(self) -> Kind {
        match self {
            Field::Now | Field::Gs | Field::Track | Field::NavQnh
            | Field::NavHeading | Field::Lat | Field::Lon | Field::SeenPos
            | Field::Seen | Field::RDst | Field::RDir | Field::Rssi
            => Kind::Number,
            Field::AltGeom | Field::BaroRate | Field::GeomRate | Field::NavAltitudeMcp
            | Field::Nic | Field::Rc | Field::Version | Field::Messages
            | Field::Dbflags | Field::CalcTrack
            => Kind::Int32,
            Field::NicBaro | Field::NacP | Field::NacV | Field::Sil
            | Field::Gva | Field::Sda | Field::Alert | Field::Spi
            => Kind::Int8,
            Field::Hex | Field::AdsbType | Field::Flight | Field::AircraftRegistration
            | Field::AircraftType | Field::Squawk | Field::Emergency | Field::Category
            => Kind::Text,
            Field::Mlat | Field::Tisb
            => Kind::TextList,
            Field::Altitude
            => Kind::Altitude,
            Field::SilType
            => Kind::SilType,
            Field::NavModes
            => Kind::NavModes,
        }
    }

    /// The kind of value that the field holds.
    pub fn value_kind(self) -> (kind: Kind)
        ensures
            kind == self.kind(),
    {
        match self {
            Field::Now | Field::Gs | Field::Track | Field::NavQnh
            | Field::NavHeading | Field::Lat | Field::Lon | Field::SeenPos
            | Field::Seen | Field::RDst | Field::RDir | Field::Rssi
            => Kind::Number,
            Field::AltGeom | Field::BaroRate | Field::GeomRate | Field::NavAltitudeMcp
            | Field::Nic | Field::Rc | Field::Version | Field::Messages
            | Field::Dbflags | Field::CalcTrack
            => Kind::Int32,
            Field::NicBaro | Field::NacP | Field::NacV | Field::Sil
            | Field::Gva | Field::Sda | Field::Alert | Field::Spi
            => Kind::Int8,
            Field::Hex | Field::AdsbType | Field::Flight | Field::AircraftRegistration
            | Field::AircraftType | Field::Squawk | Field::Emergency | Field::Category
            => Kind::Text,
            Field::Mlat | Field::Tisb
            => Kind::TextList,
            Field::Altitude
            => Kind::Altitude,
            Field::SilType
            => Kind::SilType,
            Field::NavModes
            => Kind::NavModes,
        }
    }

    /// The place of the field in the schema, counted from zero.
    pub open spec fn ordinal(self) -> nat {
        match self {
            Field::Now => 0,
            Field::Hex => 1,
            Field::AdsbType => 2,
            Field::Flight => 3,
            Field::AircraftRegistration => 4,
            Field::AircraftType => 5,
            Field::Altitude => 6,
            Field::AltGeom => 7,
            Field::Gs => 8,
            Field::Track => 9,
            Field::BaroRate => 10,
            Field::GeomRate => 11,
            Field::Squawk => 12,
            Field::Emergency => 13,
            Field::Category => 14,
            Field::NavQnh => 15,
            Field::NavAltitudeMcp => 16,
            Field::NavHeading => 17,
            Field::NavModes => 18,
            Field::Lat => 19,
            Field::Lon => 20,
            Field::Nic => 21,
            Field::Rc => 22,
            Field::SeenPos => 23,
            Field::Seen => 24,
            Field::RDst => 25,
            Field::RDir => 26,
            Field::Version => 27,
            Field::NicBaro => 28,
            Field::NacP => 29,
            Field::NacV => 30,
            Field::Sil => 31,
            Field::SilType => 32,
            Field::Gva => 33,
            Field::Sda => 34,
            Field::Alert => 35,
            Field::Spi => 36,
            Field::Mlat => 37,
            Field::Tisb => 38,
            Field::Messages => 39,
            Field::Rssi => 40,
            Field::Dbflags => 41,
            Field::CalcTrack => 42,
        }
    }

    /// The field at a place of the schema; past the end, the last one.
    pub open spec fn at(place: nat) -> Field {
        if place == 0 {
            Field::Now
        } else if place == 1 {
            Field::Hex
        } else if place == 2 {
            Field::AdsbType
        } else if place == 3 {
            Field::Flight
        } else if place == 4 {
            Field::AircraftRegistration
        } else if place == 5 {
            Field::AircraftType
        } else if place == 6 {
            Field::Altitude
        } else if place == 7 {
            Field::AltGeom
        } else if place == 8 {
            Field::Gs
        } else if place == 9 {
            Field::Track
        } else if place == 10 {
            Field::BaroRate
        } else if place == 11 {
            Field::GeomRate
        } else if place == 12 {
            Field::Squawk
        } else if place == 13 {
            Field::Emergency
        } else if place == 14 {
            Field::Category
        } else if place == 15 {
            Field::NavQnh
        } else if place == 16 {
            Field::NavAltitudeMcp
        } else if place == 17 {
            Field::NavHeading
        } else if place == 18 {
            Field::NavModes
        } else if place == 19 {
            Field::Lat
        } else if place == 20 {
            Field::Lon
        } else if place == 21 {
            Field::Nic
        } else if place == 22 {
            Field::Rc
        } else if place == 23 {
            Field::SeenPos
        } else if place == 24 {
            Field::Seen
        } else if place == 25 {
            Field::RDst
        } else if place == 26 {
            Field::RDir
        } else if place == 27 {
            Field::Version
        } else if place == 28 {
            Field::NicBaro
        } else if place == 29 {
            Field::NacP
        } else if place == 30 {
            Field::NacV
        } else if place == 31 {
            Field::Sil
        } else if place == 32 {
            Field::SilType
        } else if place == 33 {
            Field::Gva
        } else if place == 34 {
            Field::Sda
        } else if place == 35 {
            Field::Alert
        } else if place == 36 {
            Field::Spi
        } else if place == 37 {
            Field::Mlat
        } else if place == 38 {
            Field::Tisb
        } else if place == 39 {
            Field::Messages
        } else if place == 40 {
            Field::Rssi
        } else if place == 41 {
            Field::Dbflags
        } else {
            Field::CalcTrack
        }
    }

    /// The field at a place of the schema, if the place is one.
    pub fn nth(place: usize) -> (field: Option<Field>)
        ensures
            field == if place < FIELD_COUNT {
                Some(Field::at(place as nat))
            } else {
                None
            },
    {
        match place {
            0 => Some(Field::Now),
            1 => Some(Field::Hex),
            2 => Some(Field::AdsbType),
            3 => Some(Field::Flight),
            4 => Some(Field::AircraftRegistration),
            5 => Some(Field::AircraftType),
            6 => Some(Field::Altitude),
            7 => Some(Field::AltGeom),
            8 => Some(Field::Gs),
            9 => Some(Field::Track),
            10 => Some(Field::BaroRate),
            11 => Some(Field::GeomRate),
            12 => Some(Field::Squawk),
            13 => Some(Field::Emergency),
            14 => Some(Field::Category),
            15 => Some(Field::NavQnh),
            16 => Some(Field::NavAltitudeMcp),
            17 => Some(Field::NavHeading),
            18 => Some(Field::NavModes),
            19 => Some(Field::Lat),
            20 => Some(Field::Lon),
            21 => Some(Field::Nic),
            22 => Some(Field::Rc),
            23 => Some(Field::SeenPos),
            24 => Some(Field::Seen),
            25 => Some(Field::RDst),
            26 => Some(Field::RDir),
            27 => Some(Field::Version),
            28 => Some(Field::NicBaro),
            29 => Some(Field::NacP),
            30 => Some(Field::NacV),
            31 => Some(Field::Sil),
            32 => Some(Field::SilType),
            33 => Some(Field::Gva),
            34 => Some(Field::Sda),
            35 => Some(Field::Alert),
            36 => Some(Field::Spi),
            37 => Some(Field::Mlat),
            38 => Some(Field::Tisb),
            39 => Some(Field::Messages),
            40 => Some(Field::Rssi),
            41 => Some(Field::Dbflags),
            42 => Some(Field::CalcTrack),
            _ => None,
        }
    }

    /// The field that travels under a name, if the schema has one.
    pub open spec fn of_wire(key: Seq<char>) -> Option<Field> {
        if key == "now"@ {
            Some(Field::Now)
        } else if key == "hex"@ {
            Some(Field::Hex)
        } else if key == "type"@ {
            Some(Field::AdsbType)
        } else if key == "flight"@ {
            Some(Field::Flight)
        } else if key == "r"@ {
            Some(Field::AircraftRegistration)
        } else if key == "t"@ {
            Some(Field::AircraftType)
        } else if key == "alt_baro"@ {
            Some(Field::Altitude)
        } else if key == "alt_geom"@ {
            Some(Field::AltGeom)
        } else if key == "gs"@ {
            Some(Field::Gs)
        } else if key == "track"@ {
            Some(Field::Track)
        } else if key == "baro_rate"@ {
            Some(Field::BaroRate)
        } else if key == "geom_rate"@ {
            Some(Field::GeomRate)
        } else if key == "squawk"@ {
            Some(Field::Squawk)
        } else if key == "emergency"@ {
            Some(Field::Emergency)
        } else if key == "category"@ {
            Some(Field::Category)
        } else if key == "nav_qnh"@ {
            Some(Field::NavQnh)
        } else if key == "nav_altitude_mcp"@ {
            Some(Field::NavAltitudeMcp)
        } else if key == "nav_heading"@ {
            Some(Field::NavHeading)
        } else if key == "nav_modes"@ {
            Some(Field::NavModes)
        } else if key == "lat"@ {
            Some(Field::Lat)
        } else if key == "lon"@ {
            Some(Field::Lon)
        } else if key == "nic"@ {
            Some(Field::Nic)
        } else if key == "rc"@ {
            Some(Field::Rc)
        } else if key == "seen_pos"@ {
            Some(Field::SeenPos)
        } else if key == "seen"@ {
            Some(Field::Seen)
        } else if key == "r_dst"@ {
            Some(Field::RDst)
        } else if key == "r_dir"@ {
            Some(Field::RDir)
        } else if key == "version"@ {
            Some(Field::Version)
        } else if key == "nic_baro"@ {
            Some(Field::NicBaro)
        } else if key == "nac_p"@ {
            Some(Field::NacP)
        } else if key == "nac_v"@ {
            Some(Field::NacV)
        } else if key == "sil"@ {
            Some(Field::Sil)
        } else if key == "sil_type"@ {
            Some(Field::SilType)
        } else if key == "gva"@ {
            Some(Field::Gva)
        } else if key == "sda"@ {
            Some(Field::Sda)
        } else if key == "alert"@ {
            Some(Field::Alert)
        } else if key == "spi"@ {
            Some(Field::Spi)
        } else if key == "mlat"@ {
            Some(Field::Mlat)
        } else if key == "tisb"@ {
            Some(Field::Tisb)
        } else if key == "messages"@ {
            Some(Field::Messages)
        } else if key == "rssi"@ {
            Some(Field::Rssi)
        } else if key == "dbFlags"@ {
            Some(Field::Dbflags)
        } else if key == "calc_track"@ {
            Some(Field::CalcTrack)
        } else {
            None
        }
    }

    /// The field that travels under a name, if the schema has one.
    pub fn from_wire(key: &str) -> (field: Option<Field>)
        ensures
            field == Field::of_wire(key@),
    {
        if same_text(key, "now") {
            Some(Field::Now)
        } else if same_text(key, "hex") {
            Some(Field::Hex)
        } else if same_text(key, "type") {
            Some(Field::AdsbType)
        } else if same_text(key, "flight") {
            Some(Field::Flight)
        } else if same_text(key, "r") {
            Some(Field::AircraftRegistration)
        } else if same_text(key, "t") {
            Some(Field::AircraftType)
        } else if same_text(key, "alt_baro") {
            Some(Field::Altitude)
        } else if same_text(key, "alt_geom") {
            Some(Field::AltGeom)
        } else if same_text(key, "gs") {
            Some(Field::Gs)
        } else if same_text(key, "track") {
            Some(Field::Track)
        } else if same_text(key, "baro_rate") {
            Some(Field::BaroRate)
        } else if same_text(key, "geom_rate") {
            Some(Field::GeomRate)
        } else if same_text(key, "squawk") {
            Some(Field::Squawk)
        } else if same_text(key, "emergency") {
            Some(Field::Emergency)
        } else if same_text(key, "category") {
            Some(Field::Category)
        } else if same_text(key, "nav_qnh") {
            Some(Field::NavQnh)
        } else if same_text(key, "nav_altitude_mcp") {
            Some(Field::NavAltitudeMcp)
        } else if same_text(key, "nav_heading") {
            Some(Field::NavHeading)
        } else if same_text(key, "nav_modes") {
            Some(Field::NavModes)
        } else if same_text(key, "lat") {
            Some(Field::Lat)
        } else if same_text(key, "lon") {
            Some(Field::Lon)
        } else if same_text(key, "nic") {
            Some(Field::Nic)
        } else if same_text(key, "rc") {
            Some(Field::Rc)
        } else if same_text(key, "seen_pos") {
            Some(Field::SeenPos)
        } else if same_text(key, "seen") {
            Some(Field::Seen)
        } else if same_text(key, "r_dst") {
            Some(Field::RDst)
        } else if same_text(key, "r_dir") {
            Some(Field::RDir)
        } else if same_text(key, "version") {
            Some(Field::Version)
        } else if same_text(key, "nic_baro") {
            Some(Field::NicBaro)
        } else if same_text(key, "nac_p") {
            Some(Field::NacP)
        } else if same_text(key, "nac_v") {
            Some(Field::NacV)
        } else if same_text(key, "sil") {
            Some(Field::Sil)
        } else if same_text(key, "sil_type") {
            Some(Field::SilType)
        } else if same_text(key, "gva") {
            Some(Field::Gva)
        } else if same_text(key, "sda") {
            Some(Field::Sda)
        } else if same_text(key, "alert") {
            Some(Field::Alert)
        } else if same_text(key, "spi") {
            Some(Field::Spi)
        } else if same_text(key, "mlat") {
            Some(Field::Mlat)
        } else if same_text(key, "tisb") {
            Some(Field::Tisb)
        } else if same_text(key, "messages") {
            Some(Field::Messages)
        } else if same_text(key, "rssi") {
            Some(Field::Rssi)
        } else if same_text(key, "dbFlags") {
            Some(Field::Dbflags)
        } else if same_text(key, "calc_track") {
            Some(Field::CalcTrack)
        } else {
            None
        }
    }

    /// Every place below the count holds the field with that ordinal, and
    /// every field has its place.
    pub proof fn places()
        ensures
            forall|f: Field| #[trigger] f.ordinal() < FIELD_COUNT && Field::at(f.ordinal()) == f,
            forall|place: nat|
                place < FIELD_COUNT ==> (#[trigger] Field::at(place)).ordinal() == place,
    {
    }

    /// What the wire names hold, character by character.
    pub proof fn spell()
        ensures
            "now"@.len() == 3,
            "now"@[0] == 'n',
            "now"@[1] == 'o',
            "now"@[2] == 'w',
            "hex"@.len() == 3,
            "hex"@[0] == 'h',
            "hex"@[1] == 'e',
            "hex"@[2] == 'x',
            "type"@.len() == 4,
            "type"@[0] == 't',
            "type"@[1] == 'y',
            "type"@[2] == 'p',
            "type"@[3] == 'e',
            "flight"@.len() == 6,
            "flight"@[0] == 'f',
            "flight"@[1] == 'l',
            "flight"@[2] == 'i',
            "flight"@[3] == 'g',
            "flight"@[4] == 'h',
            "flight"@[5] == 't',
            "r"@.len() == 1,
            "r"@[0] == 'r',
            "t"@.len() == 1,
            "t"@[0] == 't',
            "alt_baro"@.len() == 8,
            "alt_baro"@[0] == 'a',
            "alt_baro"@[1] == 'l',
            "alt_baro"@[2] == 't',
            "alt_baro"@[3] == '_',
            "alt_baro"@[4] == 'b',
            "alt_baro"@[5] == 'a',
            "alt_baro"@[6] == 'r',
            "alt_baro"@[7] == 'o',
            "alt_geom"@.len() == 8,
            "alt_geom"@[0] == 'a',
            "alt_geom"@[1] == 'l',
            "alt_geom"@[2] == 't',
            "alt_geom"@[3] == '_',
            "alt_geom"@[4] == 'g',
            "alt_geom"@[5] == 'e',
            "alt_geom"@[6] == 'o',
            "alt_geom"@[7] == 'm',
            "gs"@.len() == 2,
            "gs"@[0] == 'g',
            "gs"@[1] == 's',
            "track"@.len() == 5,
            "track"@[0] == 't',
            "track"@[1] == 'r',
            "track"@[2] == 'a',
            "track"@[3] == 'c',
            "track"@[4] == 'k',
            "baro_rate"@.len() == 9,
            "baro_rate"@[0] == 'b',
            "baro_rate"@[1] == 'a',
            "baro_rate"@[2] == 'r',
            "baro_rate"@[3] == 'o',
            "baro_rate"@[4] == '_',
            "baro_rate"@[5] == 'r',
            "baro_rate"@[6] == 'a',
            "baro_rate"@[7] == 't',
            "baro_rate"@[8] == 'e',
            "geom_rate"@.len() == 9,
            "geom_rate"@[0] == 'g',
            "geom_rate"@[1] == 'e',
            "geom_rate"@[2] == 'o',
            "geom_rate"@[3] == 'm',
            "geom_rate"@[4] == '_',
            "geom_rate"@[5] == 'r',
            "geom_rate"@[6] == 'a',
            "geom_rate"@[7] == 't',
            "geom_rate"@[8] == 'e',
            "squawk"@.len() == 6,
            "squawk"@[0] == 's',
            "squawk"@[1] == 'q',
            "squawk"@[2] == 'u',
            "squawk"@[3] == 'a',
            "squawk"@[4] == 'w',
            "squawk"@[5] == 'k',
            "emergency"@.len() == 9,
            "emergency"@[0] == 'e',
            "emergency"@[1] == 'm',
            "emergency"@[2] == 'e',
            "emergency"@[3] == 'r',
            "emergency"@[4] == 'g',
            "emergency"@[5] == 'e',
            "emergency"@[6] == 'n',
            "emergency"@[7] == 'c',
            "emergency"@[8] == 'y',
            "category"@.len() == 8,
            "category"@[0] == 'c',
            "category"@[1] == 'a',
            "category"@[2] == 't',
            "category"@[3] == 'e',
            "category"@[4] == 'g',
            "category"@[5] == 'o',
            "category"@[6] == 'r',
            "category"@[7] == 'y',
            "nav_qnh"@.len() == 7,
            "nav_qnh"@[0] == 'n',
            "nav_qnh"@[1] == 'a',
            "nav_qnh"@[2] == 'v',
            "nav_qnh"@[3] == '_',
            "nav_qnh"@[4] == 'q',
            "nav_qnh"@[5] == 'n',
            "nav_qnh"@[6] == 'h',
            "nav_altitude_mcp"@.len() == 16,
            "nav_altitude_mcp"@[0] == 'n',
            "nav_altitude_mcp"@[1] == 'a',
            "nav_altitude_mcp"@[2] == 'v',
            "nav_altitude_mcp"@[3] == '_',
            "nav_altitude_mcp"@[4] == 'a',
            "nav_altitude_mcp"@[5] == 'l',
            "nav_altitude_mcp"@[6] == 't',
            "nav_altitude_mcp"@[7] == 'i',
            "nav_altitude_mcp"@[8] == 't',
            "nav_altitude_mcp"@[9] == 'u',
            "nav_altitude_mcp"@[10] == 'd',
            "nav_altitude_mcp"@[11] == 'e',
            "nav_altitude_mcp"@[12] == '_',
            "nav_altitude_mcp"@[13] == 'm',
            "nav_altitude_mcp"@[14] == 'c',
            "nav_altitude_mcp"@[15] == 'p',
            "nav_heading"@.len() == 11,
            "nav_heading"@[0] == 'n',
            "nav_heading"@[1] == 'a',
            "nav_heading"@[2] == 'v',
            "nav_heading"@[3] == '_',
            "nav_heading"@[4] == 'h',
            "nav_heading"@[5] == 'e',
            "nav_heading"@[6] == 'a',
            "nav_heading"@[7] == 'd',
            "nav_heading"@[8] == 'i',
            "nav_heading"@[9] == 'n',
            "nav_heading"@[10] == 'g',
            "nav_modes"@.len() == 9,
            "nav_modes"@[0] == 'n',
            "nav_modes"@[1] == 'a',
            "nav_modes"@[2] == 'v',
            "nav_modes"@[3] == '_',
            "nav_modes"@[4] == 'm',
            "nav_modes"@[5] == 'o',
            "nav_modes"@[6] == 'd',
            "nav_modes"@[7] == 'e',
            "nav_modes"@[8] == 's',
            "lat"@.len() == 3,
            "lat"@[0] == 'l',
            "lat"@[1] == 'a',
            "lat"@[2] == 't',
            "lon"@.len() == 3,
            "lon"@[0] == 'l',
            "lon"@[1] == 'o',
            "lon"@[2] == 'n',
            "nic"@.len() == 3,
            "nic"@[0] == 'n',
            "nic"@[1] == 'i',
            "nic"@[2] == 'c',
            "rc"@.len() == 2,
            "rc"@[0] == 'r',
            "rc"@[1] == 'c',
            "seen_pos"@.len() == 8,
            "seen_pos"@[0] == 's',
            "seen_pos"@[1] == 'e',
            "seen_pos"@[2] == 'e',
            "seen_pos"@[3] == 'n',
            "seen_pos"@[4] == '_',
            "seen_pos"@[5] == 'p',
            "seen_pos"@[6] == 'o',
            "seen_pos"@[7] == 's',
            "seen"@.len() == 4,
            "seen"@[0] == 's',
            "seen"@[1] == 'e',
            "seen"@[2] == 'e',
            "seen"@[3] == 'n',
            "r_dst"@.len() == 5,
            "r_dst"@[0] == 'r',
            "r_dst"@[1] == '_',
            "r_dst"@[2] == 'd',
            "r_dst"@[3] == 's',
            "r_dst"@[4] == 't',
            "r_dir"@.len() == 5,
            "r_dir"@[0] == 'r',
            "r_dir"@[1] == '_',
            "r_dir"@[2] == 'd',
            "r_dir"@[3] == 'i',
            "r_dir"@[4] == 'r',
            "version"@.len() == 7,
            "version"@[0] == 'v',
            "version"@[1] == 'e',
            "version"@[2] == 'r',
            "version"@[3] == 's',
            "version"@[4] == 'i',
            "version"@[5] == 'o',
            "version"@[6] == 'n',
            "nic_baro"@.len() == 8,
            "nic_baro"@[0] == 'n',
            "nic_baro"@[1] == 'i',
            "nic_baro"@[2] == 'c',
            "nic_baro"@[3] == '_',
            "nic_baro"@[4] == 'b',
            "nic_baro"@[5] == 'a',
            "nic_baro"@[6] == 'r',
            "nic_baro"@[7] == 'o',
            "nac_p"@.len() == 5,
            "nac_p"@[0] == 'n',
            "nac_p"@[1] == 'a',
            "nac_p"@[2] == 'c',
            "nac_p"@[3] == '_',
            "nac_p"@[4] == 'p',
            "nac_v"@.len() == 5,
            "nac_v"@[0] == 'n',
            "nac_v"@[1] == 'a',
            "nac_v"@[2] == 'c',
            "nac_v"@[3] == '_',
            "nac_v"@[4] == 'v',
            "sil"@.len() == 3,
            "sil"@[0] == 's',
            "sil"@[1] == 'i',
            "sil"@[2] == 'l',
            "sil_type"@.len() == 8,
            "sil_type"@[0] == 's',
            "sil_type"@[1] == 'i',
            "sil_type"@[2] == 'l',
            "sil_type"@[3] == '_',
            "sil_type"@[4] == 't',
            "sil_type"@[5] == 'y',
            "sil_type"@[6] == 'p',
            "sil_type"@[7] == 'e',
            "gva"@.len() == 3,
            "gva"@[0] == 'g',
            "gva"@[1] == 'v',
            "gva"@[2] == 'a',
            "sda"@.len() == 3,
            "sda"@[0] == 's',
            "sda"@[1] == 'd',
            "sda"@[2] == 'a',
            "alert"@.len() == 5,
            "alert"@[0] == 'a',
            "alert"@[1] == 'l',
            "alert"@[2] == 'e',
            "alert"@[3] == 'r',
            "alert"@[4] == 't',
            "spi"@.len() == 3,
            "spi"@[0] == 's',
            "spi"@[1] == 'p',
            "spi"@[2] == 'i',
            "mlat"@.len() == 4,
            "mlat"@[0] == 'm',
            "mlat"@[1] == 'l',
            "mlat"@[2] == 'a',
            "mlat"@[3] == 't',
            "tisb"@.len() == 4,
            "tisb"@[0] == 't',
            "tisb"@[1] == 'i',
            "tisb"@[2] == 's',
            "tisb"@[3] == 'b',
            "messages"@.len() == 8,
            "messages"@[0] == 'm',
            "messages"@[1] == 'e',
            "messages"@[2] == 's',
            "messages"@[3] == 's',
            "messages"@[4] == 'a',
            "messages"@[5] == 'g',
            "messages"@[6] == 'e',
            "messages"@[7] == 's',
            "rssi"@.len() == 4,
            "rssi"@[0] == 'r',
            "rssi"@[1] == 's',
            "rssi"@[2] == 's',
            "rssi"@[3] == 'i',
            "dbFlags"@.len() == 7,
            "dbFlags"@[0] == 'd',
            "dbFlags"@[1] == 'b',
            "dbFlags"@[2] == 'F',
            "dbFlags"@[3] == 'l',
            "dbFlags"@[4] == 'a',
            "dbFlags"@[5] == 'g',
            "dbFlags"@[6] == 's',
            "calc_track"@.len() == 10,
            "calc_track"@[0] == 'c',
            "calc_track"@[1] == 'a',
            "calc_track"@[2] == 'l',
            "calc_track"@[3] == 'c',
            "calc_track"@[4] == '_',
            "calc_track"@[5] == 't',
            "calc_track"@[6] == 'r',
            "calc_track"@[7] == 'a',
            "calc_track"@[8] == 'c',
            "calc_track"@[9] == 'k',
    {
        reveal_strlit("now");
        reveal_strlit("hex");
        reveal_strlit("type");
        reveal_strlit("flight");
        reveal_strlit("r");
        reveal_strlit("t");
        reveal_strlit("alt_baro");
        reveal_strlit("alt_geom");
        reveal_strlit("gs");
        reveal_strlit("track");
        reveal_strlit("baro_rate");
        reveal_strlit("geom_rate");
        reveal_strlit("squawk");
        reveal_strlit("emergency");
        reveal_strlit("category");
        reveal_strlit("nav_qnh");
        reveal_strlit("nav_altitude_mcp");
        reveal_strlit("nav_heading");
        reveal_strlit("nav_modes");
        reveal_strlit("lat");
        reveal_strlit("lon");
        reveal_strlit("nic");
        reveal_strlit("rc");
        reveal_strlit("seen_pos");
        reveal_strlit("seen");
        reveal_strlit("r_dst");
        reveal_strlit("r_dir");
        reveal_strlit("version");
        reveal_strlit("nic_baro");
        reveal_strlit("nac_p");
        reveal_strlit("nac_v");
        reveal_strlit("sil");
        reveal_strlit("sil_type");
        reveal_strlit("gva");
        reveal_strlit("sda");
        reveal_strlit("alert");
        reveal_strlit("spi");
        reveal_strlit("mlat");
        reveal_strlit("tisb");
        reveal_strlit("messages");
        reveal_strlit("rssi");
        reveal_strlit("dbFlags");
        reveal_strlit("calc_track");
    }

    /// A wire name leads back to its field: no two fields share a name.
    pub proof fn wire_names()
        ensures
            forall|f: Field| Field::of_wire(#[trigger] f.wire()) == Some(f),
            forall|key: Seq<char>| #[trigger]
                Field::of_wire(key) matches Some(f) ==> f.wire() == key,
    {
        Field::spell();
    }
}

} // verus!
