use adsb_parser::adsb_json::{ADSBJsonMessage, Altitude, NavModes, NewADSBJsonMessage, SilType};
use adsb_parser::encode::{
    as_bytes, encode_doc, encode_members, encoded, field_value, with_line,
};
use adsb_parser::error::EncodeError;
use adsb_parser::json::{find, Json};
use adsb_parser::number::JsonNumber;
use adsb_parser::schema::Field;
use adsb_parser::text::parse;
use adsb_parser::ADSBMessage;

fn floating(value: f64) -> JsonNumber {
    JsonNumber::from_outside(&serde_json::Number::from_f64(value).unwrap())
}

fn grounded() -> ADSBJsonMessage {
    ADSBJsonMessage {
        now: floating(1600000000.0),
        hex: "a1b2c3".to_string(),
        adsb_type: "adsb_icao".to_string(),
        flight: None,
        aircraft_registration: "N12345".to_string(),
        aircraft_type: None,
        altitude: Altitude::OnGround,
        alt_geom: None,
        gs: None,
        track: None,
        baro_rate: None,
        geom_rate: None,
        squawk: None,
        emergency: None,
        category: None,
        nav_qnh: None,
        nav_altitude_mcp: None,
        nav_heading: None,
        nav_modes: None,
        lat: floating(40.0),
        lon: floating(-74.0),
        nic: 8,
        rc: 186,
        seen_pos: None,
        seen: floating(0.1),
        r_dst: floating(12.3),
        r_dir: floating(45.0),
        version: 2,
        nic_baro: None,
        nac_p: 9,
        nac_v: None,
        sil: 3,
        sil_type: SilType::PerHour,
        gva: None,
        sda: None,
        alert: None,
        spi: None,
        mlat: vec![],
        tisb: vec![],
        messages: 10,
        rssi: floating(-12.3),
        dbflags: None,
        calc_track: None,
    }
}

fn airborne() -> ADSBJsonMessage {
    ADSBJsonMessage {
        now: floating(1654321098.7),
        hex: "a0b1c2".to_string(),
        adsb_type: "adsb_icao".to_string(),
        flight: Some("UAL123  ".to_string()),
        aircraft_registration: "N12345".to_string(),
        aircraft_type: Some("B738".to_string()),
        altitude: Altitude::Numeric(35000),
        alt_geom: Some(35625),
        gs: Some(floating(450.2)),
        track: Some(floating(270.5)),
        baro_rate: Some(-64),
        geom_rate: Some(0),
        squawk: Some("1234".to_string()),
        emergency: Some("none".to_string()),
        category: Some("A3".to_string()),
        nav_qnh: Some(floating(1013.6)),
        nav_altitude_mcp: Some(35008),
        nav_heading: Some(JsonNumber::PosInt(270)),
        nav_modes: Some(vec![NavModes::AltHold, NavModes::AutoPilot, NavModes::VNAV, NavModes::TCAS]),
        lat: floating(40.123456),
        lon: floating(-74.654321),
        nic: 8,
        rc: 186,
        seen_pos: Some(floating(0.5)),
        seen: floating(0.1),
        r_dst: floating(42.1),
        r_dir: floating(123.4),
        version: 2,
        nic_baro: Some(1),
        nac_p: 9,
        nac_v: Some(-1),
        sil: 3,
        sil_type: SilType::Unknown,
        gva: Some(2),
        sda: Some(3),
        alert: Some(0),
        spi: Some(1),
        mlat: vec!["lat".to_string(), "lon".to_string()],
        tisb: vec!["gs \"true\"".to_string()],
        messages: 1234,
        rssi: floating(-10.5),
        dbflags: Some(8),
        calc_track: Some(-271),
    }
}

const GROUNDED_TEXT: &str = "{\"now\":1600000000.0,\"hex\":\"a1b2c3\",\"type\":\"adsb_icao\",\"r\":\"N12345\",\"alt_baro\":\"ground\",\"lat\":40.0,\"lon\":-74.0,\"nic\":8,\"rc\":186,\"seen\":0.1,\"r_dst\":12.3,\"r_dir\":45.0,\"version\":2,\"nac_p\":9,\"sil\":3,\"sil_type\":\"perhour\",\"mlat\":[],\"tisb\":[],\"messages\":10,\"rssi\":-12.3}";

const AIRBORNE_TEXT: &str = "{\"now\":1654321098.7,\"hex\":\"a0b1c2\",\"type\":\"adsb_icao\",\"flight\":\"UAL123  \",\"r\":\"N12345\",\"t\":\"B738\",\"alt_baro\":35000,\"alt_geom\":35625,\"gs\":450.2,\"track\":270.5,\"baro_rate\":-64,\"geom_rate\":0,\"squawk\":\"1234\",\"emergency\":\"none\",\"category\":\"A3\",\"nav_qnh\":1013.6,\"nav_altitude_mcp\":35008,\"nav_heading\":270,\"nav_modes\":[\"althold\",\"autopilot\",\"vnav\",\"tcas\"],\"lat\":40.123456,\"lon\":-74.654321,\"nic\":8,\"rc\":186,\"seen_pos\":0.5,\"seen\":0.1,\"r_dst\":42.1,\"r_dir\":123.4,\"version\":2,\"nic_baro\":1,\"nac_p\":9,\"nac_v\":-1,\"sil\":3,\"sil_type\":\"unknown\",\"gva\":2,\"sda\":3,\"alert\":0,\"spi\":1,\"mlat\":[\"lat\",\"lon\"],\"tisb\":[\"gs \\\"true\\\"\"],\"messages\":1234,\"rssi\":-10.5,\"dbFlags\":8,\"calc_track\":-271}";

#[test]
fn message_is_written_field_by_field_in_schema_order() {
    assert_eq!(grounded().to_string(), Ok(GROUNDED_TEXT.to_string()));
    assert_eq!(airborne().to_string(), Ok(AIRBORNE_TEXT.to_string()));
}

#[test]
fn grounded_scenario_round_trips() {
    let message = GROUNDED_TEXT.to_adsb().unwrap();
    assert_eq!(message, grounded());
    assert_eq!(message.altitude, Altitude::OnGround);
    let text = message.to_string().unwrap();
    let written = parse(&text).unwrap();
    let read = parse(GROUNDED_TEXT).unwrap();
    assert_eq!(written, read);
    match written {
        Json::Object(members) => {
            assert_eq!(members.len(), 20);
            assert_eq!(find(&members, "mlat"), Some(&Json::Array(vec![])));
            assert_eq!(find(&members, "tisb"), Some(&Json::Array(vec![])));
            assert_eq!(find(&members, "alt_baro"), Some(&Json::Text("ground".to_string())));
        }
        other => panic!("not an object: {:?}", other),
    }
}

#[test]
fn decoding_what_was_encoded_gives_the_message_back() {
    for message in [grounded(), airborne(), ADSBJsonMessage::default()] {
        let text = message.to_string().unwrap();
        assert_eq!(ADSBJsonMessage::decode(&text), Ok(message.clone()));
        assert_eq!(ADSBJsonMessage::from_json(&message.to_json()), Ok(message.clone()));
        let line = message.to_string_newline().unwrap();
        assert_eq!(ADSBJsonMessage::decode(&line), Ok(message));
    }
}

#[test]
fn decoded_messages_round_trip() {
    for text in [GROUNDED_TEXT, AIRBORNE_TEXT] {
        let message = text.to_adsb().unwrap();
        let again = message.to_string().unwrap().to_adsb().unwrap();
        assert_eq!(again, message);
        assert_eq!(message.to_string().unwrap(), text);
    }
}

#[test]
fn absent_flight_is_left_out() {
    let message = grounded();
    assert_eq!(message.flight, None);
    let text = message.to_string().unwrap();
    assert!(!text.contains("flight"));
    assert!(!text.contains("null"));
    match message.to_json() {
        Json::Object(members) => assert_eq!(find(&members, "flight"), None),
        other => panic!("not an object: {:?}", other),
    }
    let back = text.to_adsb().unwrap();
    assert_eq!(back.flight, None);
    assert_eq!(field_value(&message, Field::Flight), None);
}

#[test]
fn absent_optional_fields_get_no_member() {
    let message = grounded();
    let doc = encode_doc(&message);
    let members = encode_members(&message);
    assert_eq!(doc, Json::Object(encode_members(&message)));
    let mut place = 0;
    let mut written = 0;
    while let Some(field) = Field::nth(place) {
        let found = find(&members, field.wire_name());
        assert_eq!(found.is_some(), field.is_required(), "{:?}", field);
        assert_eq!(found.cloned(), field_value(&message, field));
        assert_ne!(found, Some(&Json::Null));
        if found.is_some() {
            written += 1;
        }
        place += 1;
    }
    assert_eq!(place, 43);
    assert_eq!(written, 20);
    assert_eq!(members.len(), 20);
}

#[test]
fn present_optional_fields_get_their_member() {
    let message = airborne();
    let members = encode_members(&message);
    assert_eq!(members.len(), 43);
    let mut place = 0;
    while let Some(field) = Field::nth(place) {
        assert_eq!(members[place].key, field.wire_name());
        place += 1;
    }
    assert_eq!(find(&members, "flight"), Some(&Json::Text("UAL123  ".to_string())));
    assert_eq!(find(&members, "t"), Some(&Json::Text("B738".to_string())));
    assert_eq!(find(&members, "dbFlags"), Some(&Json::Number(JsonNumber::PosInt(8))));
    assert_eq!(find(&members, "calc_track"), Some(&Json::Number(JsonNumber::NegInt(-271))));
    assert_eq!(find(&members, "nac_v"), Some(&Json::Number(JsonNumber::NegInt(-1))));
}

#[test]
fn lists_are_written_even_when_empty() {
    let text = grounded().to_string().unwrap();
    assert!(text.contains("\"mlat\":[]"));
    assert!(text.contains("\"tisb\":[]"));
    let mut message = grounded();
    message.nav_modes = Some(vec![]);
    assert!(message.to_string().unwrap().contains("\"nav_modes\":[]"));
}

#[test]
fn altitude_is_written_as_feet_or_ground() {
    let mut message = grounded();
    assert_eq!(
        field_value(&message, Field::Altitude),
        Some(Json::Text("ground".to_string()))
    );
    message.altitude = Altitude::Numeric(15000);
    assert_eq!(
        field_value(&message, Field::Altitude),
        Some(Json::Number(JsonNumber::PosInt(15000)))
    );
    assert!(message.to_string().unwrap().contains("\"alt_baro\":15000,"));
    message.altitude = Altitude::Numeric(-300);
    assert_eq!(
        field_value(&message, Field::Altitude),
        Some(Json::Number(JsonNumber::NegInt(-300)))
    );
    assert!(message.to_string().unwrap().contains("\"alt_baro\":-300,"));
}

#[test]
fn enumerations_are_written_as_their_tokens() {
    let mut message = grounded();
    message.sil_type = SilType::Unknown;
    message.nav_modes = Some(vec![NavModes::TCAS, NavModes::AltHold]);
    let text = message.to_string().unwrap();
    assert!(text.contains("\"sil_type\":\"unknown\""));
    assert!(text.contains("\"nav_modes\":[\"tcas\",\"althold\"]"));
}

#[test]
fn newline_form_only_appends_a_line_feed() {
    for message in [grounded(), airborne()] {
        let text = message.to_string().unwrap();
        assert_eq!(message.to_string_newline().unwrap(), format!("{}\n", text));
    }
}

#[test]
fn byte_forms_are_the_text_in_utf8() {
    let mut message = airborne();
    message.flight = Some("Zürich ✈".to_string());
    let text = message.to_string().unwrap();
    assert!(text.contains("Zürich ✈"));
    assert_eq!(message.to_bytes().unwrap(), text.clone().into_bytes());
    assert_eq!(
        message.to_bytes_newline().unwrap(),
        format!("{}\n", text).into_bytes()
    );
    assert_eq!(String::from_utf8(message.to_bytes().unwrap()).unwrap().to_adsb(), Ok(message));
}

#[test]
fn any_format_message_is_written_like_its_own() {
    let inner = airborne();
    let any = ADSBMessage::ADSBJsonMessage(inner.clone());
    assert_eq!(any.to_string(), inner.to_string());
    assert_eq!(any.to_string_newline(), inner.to_string_newline());
    assert_eq!(any.to_bytes(), inner.to_bytes());
    assert_eq!(any.to_bytes_newline(), inner.to_bytes_newline());
    assert_eq!(any.to_string().unwrap(), AIRBORNE_TEXT);
}

#[test]
fn default_message_reports_nothing() {
    let message = ADSBJsonMessage::default();
    assert_eq!(message.now, JsonNumber::PosInt(0));
    assert_eq!(message.hex, "");
    assert_eq!(message.altitude, Altitude::Numeric(0));
    assert_eq!(message.altitude, Altitude::default());
    assert_eq!(message.sil_type, SilType::Unknown);
    assert_eq!(message.sil_type, SilType::default());
    assert_eq!(message.flight, None);
    assert_eq!(message.nav_modes, None);
    assert!(message.mlat.is_empty());
    assert_eq!(
        message.to_string().unwrap(),
        "{\"now\":0,\"hex\":\"\",\"type\":\"\",\"r\":\"\",\"alt_baro\":0,\"lat\":0,\"lon\":0,\"nic\":0,\"rc\":0,\"seen\":0,\"r_dst\":0,\"r_dir\":0,\"version\":0,\"nac_p\":0,\"sil\":0,\"sil_type\":\"unknown\",\"mlat\":[],\"tisb\":[],\"messages\":0,\"rssi\":0}"
    );
    assert_eq!(ADSBMessage::default(), ADSBMessage::ADSBJsonMessage(message));
}

#[test]
fn serializer_outcome_is_turned_into_the_encoder_outcome() {
    assert_eq!(encoded(Ok("{}".to_string())), Ok("{}".to_string()));
    let failure = EncodeError { message: "out of memory".to_string() };
    assert_eq!(encoded(Err("out of memory".to_string())), Err(failure));
    assert_eq!(with_line(Ok("{}".to_string())), Ok("{}\n".to_string()));
    assert_eq!(with_line(Ok(String::new())), Ok("\n".to_string()));
    assert_eq!(
        with_line(Err(EncodeError { message: "full".to_string() })),
        Err(EncodeError { message: "full".to_string() })
    );
    assert_eq!(as_bytes(Ok("{é}".to_string())), Ok(vec![0x7b, 0xc3, 0xa9, 0x7d]));
    assert_eq!(
        as_bytes(Err(EncodeError { message: "full".to_string() })),
        Err(EncodeError { message: "full".to_string() })
    );
}

#[test]
fn strings_are_escaped_by_the_serializer() {
    let mut message = grounded();
    message.hex = "a\"b\\c\n".to_string();
    let text = message.to_string().unwrap();
    assert!(text.contains("\"hex\":\"a\\\"b\\\\c\\n\""));
    assert_eq!(text.to_adsb(), Ok(message));
}

#[test]
fn floats_of_any_precision_round_trip_through_text() {
    let mut state: u64 = 0x9e37_79b9_7f4a_7c15;
    let mut tried = 0;
    let edge = [
        0.0,
        -0.0,
        f64::MIN_POSITIVE,
        f64::MAX,
        f64::MIN,
        5e-324,
        0.1,
        1.0 / 3.0,
        -1.1193133179981887e-17,
    ];
    let mut values: Vec<f64> = edge.to_vec();
    while values.len() < 3000 {
        state = state.wrapping_mul(6364136223846793005).wrapping_add(1442695040888963407);
        let x = f64::from_bits(state);
        if x.is_finite() {
            values.push(x);
        }
    }
    for x in values {
        let mut message = grounded();
        message.lat = floating(x);
        message.seen_pos = Some(floating(-x));
        let text = message.to_string().unwrap();
        let back = ADSBJsonMessage::decode(&text).unwrap();
        assert_eq!(back, message, "{}", text);
        match &back.lat {
            JsonNumber::Float(float) => assert_eq!(float.to_bits(), x.to_bits()),
            other => panic!("{:?}", other),
        }
        tried += 1;
    }
    assert_eq!(tried, 3000);
}
