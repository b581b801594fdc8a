use adsb_parser::adsb_json::{Altitude, NavModes, SilType};
use adsb_parser::codec::{altitude_from, check, read_altitude, read_int32, read_modes, read_number, read_sil_type, read_text, read_texts, write_altitude, write_modes, write_sil_type, write_texts};
use adsb_parser::error::{DecodeError, Expected};
use adsb_parser::json::{Json, Shape};
use adsb_parser::number::JsonNumber;
use adsb_parser::schema::{Field, Kind, FIELD_COUNT};

fn all_fields() -> Vec<Field> {
    let mut fields = Vec::new();
    let mut place = 0;
    while let Some(field) = Field::nth(place) {
        fields.push(field);
        place += 1;
    }
    fields
}

#[test]
fn schema_has_its_fields_in_order() {
    let names: Vec<&str> = all_fields().iter().map(|f| f.wire_name()).collect();
    assert_eq!(
        names,
        vec![
            "now", "hex", "type", "flight", "r", "t", "alt_baro", "alt_geom", "gs", "track",
            "baro_rate", "geom_rate", "squawk", "emergency", "category", "nav_qnh",
            "nav_altitude_mcp", "nav_heading", "nav_modes", "lat", "lon", "nic", "rc",
            "seen_pos", "seen", "r_dst", "r_dir", "version", "nic_baro", "nac_p", "nac_v",
            "sil", "sil_type", "gva", "sda", "alert", "spi", "mlat", "tisb", "messages", "rssi",
            "dbFlags", "calc_track",
        ]
    );
    assert_eq!(names.len(), FIELD_COUNT);
    assert_eq!(FIELD_COUNT, 43);
    assert_eq!(Field::nth(0), Some(Field::Now));
    assert_eq!(Field::nth(42), Some(Field::CalcTrack));
    assert_eq!(Field::nth(43), None);
    assert_eq!(Field::nth(usize::MAX), None);
}

#[test]
fn wire_names_lead_back_to_their_fields() {
    for field in all_fields() {
        assert_eq!(Field::from_wire(field.wire_name()), Some(field));
    }
    for name in ["", "Now", "now ", "dbflags", "DBFLAGS", "typ", "types", "altitude"] {
        assert_eq!(Field::from_wire(name), None, "{:?}", name);
    }
}

#[test]
fn renamed_fields_travel_under_their_wire_names() {
    assert_eq!(Field::AdsbType.wire_name(), "type");
    assert_eq!(Field::AircraftRegistration.wire_name(), "r");
    assert_eq!(Field::AircraftType.wire_name(), "t");
    assert_eq!(Field::Altitude.wire_name(), "alt_baro");
    assert_eq!(Field::Dbflags.wire_name(), "dbFlags");
}

#[test]
fn twenty_fields_are_required() {
    let required: Vec<Field> = all_fields().into_iter().filter(|f| f.is_required()).collect();
    assert_eq!(
        required,
        vec![
            Field::Now,
            Field::Hex,
            Field::AdsbType,
            Field::AircraftRegistration,
            Field::Altitude,
            Field::Lat,
            Field::Lon,
            Field::Nic,
            Field::Rc,
            Field::Seen,
            Field::RDst,
            Field::RDir,
            Field::Version,
            Field::NacP,
            Field::Sil,
            Field::SilType,
            Field::Mlat,
            Field::Tisb,
            Field::Messages,
            Field::Rssi,
        ]
    );
}

#[test]
fn fields_have_their_kinds() {
    assert_eq!(Field::Now.value_kind(), Kind::Number);
    assert_eq!(Field::Rssi.value_kind(), Kind::Number);
    assert_eq!(Field::SeenPos.value_kind(), Kind::Number);
    assert_eq!(Field::Nic.value_kind(), Kind::Int32);
    assert_eq!(Field::Dbflags.value_kind(), Kind::Int32);
    assert_eq!(Field::NacP.value_kind(), Kind::Int8);
    assert_eq!(Field::Spi.value_kind(), Kind::Int8);
    assert_eq!(Field::Hex.value_kind(), Kind::Text);
    assert_eq!(Field::Squawk.value_kind(), Kind::Text);
    assert_eq!(Field::Mlat.value_kind(), Kind::TextList);
    assert_eq!(Field::Tisb.value_kind(), Kind::TextList);
    assert_eq!(Field::Altitude.value_kind(), Kind::Altitude);
    assert_eq!(Field::SilType.value_kind(), Kind::SilType);
    assert_eq!(Field::NavModes.value_kind(), Kind::NavModes);
    let numbers = all_fields().iter().filter(|f| f.value_kind() == Kind::Number).count();
    let wide = all_fields().iter().filter(|f| f.value_kind() == Kind::Int32).count();
    let narrow = all_fields().iter().filter(|f| f.value_kind() == Kind::Int8).count();
    let texts = all_fields().iter().filter(|f| f.value_kind() == Kind::Text).count();
    assert_eq!((numbers, wide, narrow, texts), (12, 10, 8, 8));
}

#[test]
fn navigation_modes_have_lowercase_tokens() {
    assert_eq!(NavModes::AltHold.wire_token(), "althold");
    assert_eq!(NavModes::AutoPilot.wire_token(), "autopilot");
    assert_eq!(NavModes::VNAV.wire_token(), "vnav");
    assert_eq!(NavModes::TCAS.wire_token(), "tcas");
    for mode in [NavModes::AltHold, NavModes::AutoPilot, NavModes::VNAV, NavModes::TCAS] {
        assert_eq!(NavModes::from_token(mode.wire_token()), Some(mode));
    }
    for token in ["", "AltHold", "VNAV", "tcas ", "lnav", "approach"] {
        assert_eq!(NavModes::from_token(token), None);
    }
}

#[test]
fn integrity_types_have_lowercase_tokens() {
    assert_eq!(SilType::PerHour.wire_token(), "perhour");
    assert_eq!(SilType::Unknown.wire_token(), "unknown");
    assert_eq!(SilType::from_token("perhour"), Some(SilType::PerHour));
    assert_eq!(SilType::from_token("unknown"), Some(SilType::Unknown));
    for token in ["", "PerHour", "persample", "unknown "] {
        assert_eq!(SilType::from_token(token), None);
    }
    assert_eq!(SilType::default(), SilType::Unknown);
    assert_eq!(Altitude::default(), Altitude::Numeric(0));
}

#[test]
fn altitude_is_a_number_first_and_the_ground_second() {
    assert_eq!(
        altitude_from(&Json::Number(JsonNumber::PosInt(15000))),
        Some(Altitude::Numeric(15000))
    );
    assert_eq!(altitude_from(&Json::Text("ground".to_string())), Some(Altitude::OnGround));
    assert_eq!(altitude_from(&Json::Text("descending".to_string())), None);
    assert_eq!(altitude_from(&Json::Text("15000".to_string())), None);
    assert_eq!(altitude_from(&Json::Number(JsonNumber::PosInt(1 << 31))), None);
    assert_eq!(altitude_from(&Json::Null), None);
    assert_eq!(
        check(Field::Altitude, &Json::Text("descending".to_string())),
        Some(DecodeError::InvalidEnumValue(
            "alt_baro".to_string(),
            Json::Text("descending".to_string())
        ))
    );
    assert_eq!(check(Field::Altitude, &Json::Text("ground".to_string())), None);
    assert_eq!(check(Field::Altitude, &Json::Number(JsonNumber::NegInt(-5))), None);
}

#[test]
fn values_are_checked_against_the_kind_of_their_field() {
    assert_eq!(check(Field::Hex, &Json::Text("a".to_string())), None);
    assert_eq!(
        check(Field::Hex, &Json::Bool(true)),
        Some(DecodeError::TypeMismatch("hex".to_string(), Expected::Text, Shape::Boolean))
    );
    assert_eq!(check(Field::Gs, &Json::Number(JsonNumber::PosInt(1))), None);
    assert_eq!(check(Field::NacV, &Json::Number(JsonNumber::PosInt(127))), None);
    assert_eq!(
        check(Field::NacV, &Json::Number(JsonNumber::PosInt(128))),
        Some(DecodeError::TypeMismatch("nac_v".to_string(), Expected::Int8, Shape::Integer))
    );
    assert_eq!(
        check(Field::Dbflags, &Json::Array(vec![])),
        Some(DecodeError::TypeMismatch("dbFlags".to_string(), Expected::Int32, Shape::Array))
    );
    assert_eq!(
        check(Field::Mlat, &Json::Array(vec![Json::Text("a".to_string()), Json::Object(vec![])])),
        Some(DecodeError::TypeMismatch("mlat".to_string(), Expected::TextList, Shape::Object))
    );
    assert_eq!(
        check(
            Field::NavModes,
            &Json::Array(vec![Json::Text("tcas".to_string()), Json::Text("x".to_string()), Json::Null])
        ),
        Some(DecodeError::InvalidEnumValue("nav_modes".to_string(), Json::Text("x".to_string())))
    );
    assert_eq!(
        check(Field::NavModes, &Json::Array(vec![Json::Null, Json::Text("x".to_string())])),
        Some(DecodeError::TypeMismatch("nav_modes".to_string(), Expected::TextList, Shape::Null))
    );
}

#[test]
fn values_are_written_and_read_back_by_kind() {
    let list = vec!["lat".to_string(), "".to_string()];
    let written = write_texts(&list);
    assert_eq!(
        written,
        Json::Array(vec![Json::Text("lat".to_string()), Json::Text(String::new())])
    );
    assert_eq!(read_texts(Some(&written)), list);
    let modes = vec![NavModes::VNAV, NavModes::TCAS];
    let written = write_modes(&modes);
    assert_eq!(
        written,
        Json::Array(vec![Json::Text("vnav".to_string()), Json::Text("tcas".to_string())])
    );
    assert_eq!(read_modes(Some(&written)), modes);
    for altitude in [Altitude::OnGround, Altitude::Numeric(-1), Altitude::Numeric(45000)] {
        assert_eq!(read_altitude(Some(&write_altitude(altitude))), altitude);
    }
    for value in [SilType::PerHour, SilType::Unknown] {
        assert_eq!(read_sil_type(Some(&write_sil_type(value))), value);
    }
    assert_eq!(read_number(Some(&Json::Number(JsonNumber::NegInt(-3)))), JsonNumber::NegInt(-3));
    assert_eq!(read_int32(Some(&Json::Number(JsonNumber::NegInt(-3)))), -3);
    assert_eq!(read_text(Some(&Json::Text("x".to_string()))), "x");
}
