use adsb_parser::json::{find, Json, Member, Shape};
use adsb_parser::number::JsonNumber;
use adsb_parser::text::{parse, read};

fn number_from_text(text: &str) -> JsonNumber {
    match parse(text).unwrap() {
        Json::Number(n) => n,
        other => panic!("not a number: {:?}", other),
    }
}

#[test]
fn scalars_are_parsed() {
    assert_eq!(parse("null"), Ok(Json::Null));
    assert_eq!(parse("true"), Ok(Json::Bool(true)));
    assert_eq!(parse("false"), Ok(Json::Bool(false)));
    assert_eq!(parse("\"a\\u00e9\\n\""), Ok(Json::Text("aé\n".to_string())));
    assert_eq!(parse(" 7 "), Ok(Json::Number(JsonNumber::PosInt(7))));
    assert_eq!(parse("-7"), Ok(Json::Number(JsonNumber::NegInt(-7))));
}

#[test]
fn integers_keep_their_value() {
    assert_eq!(number_from_text("0"), JsonNumber::PosInt(0));
    assert_eq!(number_from_text("-0"), number_from_text("-0.0"));
    assert_eq!(number_from_text("18446744073709551615"), JsonNumber::PosInt(u64::MAX));
    assert_eq!(number_from_text("9223372036854775808"), JsonNumber::PosInt(1 << 63));
    assert_eq!(number_from_text("-9223372036854775808"), JsonNumber::NegInt(i64::MIN));
    assert_eq!(number_from_text("-1"), JsonNumber::NegInt(-1));
    assert!(number_from_text("5").is_integer());
    assert!(!number_from_text("5.0").is_integer());
    assert!(!number_from_text("5e0").is_integer());
    assert!(!number_from_text("18446744073709551616").is_integer());
}

#[test]
fn floats_keep_their_bits() {
    let cases: [(&str, f64); 6] = [
        ("1.5", 1.5),
        ("-12.3", -12.3),
        ("1600000000.0", 1600000000.0),
        ("1e2", 100.0),
        ("-0.0", -0.0),
        ("2.5e-3", 0.0025),
    ];
    for (text, value) in cases {
        match number_from_text(text) {
            JsonNumber::Float(float) => {
                assert_eq!(float.to_bits(), value.to_bits(), "{}", text);
                assert_eq!(float.to_outside().as_f64(), Some(value));
                assert_eq!(float.duplicate(), float);
                assert_eq!(float.clone().to_bits(), value.to_bits());
            }
            other => panic!("{} is {:?}", text, other),
        }
    }
    match number_from_text("1.5") {
        JsonNumber::Float(float) => assert_eq!(float.to_bits(), 0x3ff8_0000_0000_0000),
        other => panic!("{:?}", other),
    }
}

#[test]
fn numbers_go_to_the_json_library_and_back() {
    let outside = serde_json::Number::from(42u64);
    assert_eq!(JsonNumber::from_outside(&outside), JsonNumber::PosInt(42));
    let outside = serde_json::Number::from(-42i64);
    assert_eq!(JsonNumber::from_outside(&outside), JsonNumber::NegInt(-42));
    let outside = serde_json::Number::from(42i64);
    assert_eq!(JsonNumber::from_outside(&outside), JsonNumber::PosInt(42));
    let outside = serde_json::Number::from_f64(42.0).unwrap();
    match JsonNumber::from_outside(&outside) {
        JsonNumber::Float(float) => assert_eq!(float.to_bits(), 42.0f64.to_bits()),
        other => panic!("{:?}", other),
    }
    assert_eq!(JsonNumber::PosInt(u64::MAX).to_outside().as_u64(), Some(u64::MAX));
    assert_eq!(JsonNumber::PosInt(9).to_outside(), serde_json::Number::from(9u64));
    assert_eq!(JsonNumber::NegInt(i64::MIN).to_outside().as_i64(), Some(i64::MIN));
    assert_eq!(JsonNumber::NegInt(-9).to_outside(), serde_json::Number::from(-9i64));
    assert_eq!(JsonNumber::NegInt(9).to_outside(), serde_json::Number::from(9u64));
    let float = JsonNumber::from_outside(&serde_json::Number::from_f64(0.25).unwrap());
    assert_eq!(float.to_outside().as_f64(), Some(0.25));
    assert!(float.to_outside().is_f64());
    assert_eq!(float.duplicate(), float);
    assert_eq!(float.clone(), float);
}

#[test]
fn small_integers_are_read_within_their_range() {
    assert_eq!(JsonNumber::PosInt(2147483647).as_i32(), Some(i32::MAX));
    assert_eq!(JsonNumber::PosInt(2147483648).as_i32(), None);
    assert_eq!(JsonNumber::NegInt(-2147483648).as_i32(), Some(i32::MIN));
    assert_eq!(JsonNumber::NegInt(-2147483649).as_i32(), None);
    assert_eq!(JsonNumber::NegInt(5).as_i32(), Some(5));
    assert_eq!(JsonNumber::PosInt(127).as_i8(), Some(127));
    assert_eq!(JsonNumber::PosInt(128).as_i8(), None);
    assert_eq!(JsonNumber::NegInt(-128).as_i8(), Some(-128));
    assert_eq!(JsonNumber::NegInt(-129).as_i8(), None);
    assert_eq!(number_from_text("3.0").as_i32(), None);
    assert_eq!(number_from_text("3.0").as_i8(), None);
    assert_eq!(JsonNumber::from_i32(-5), JsonNumber::NegInt(-5));
    assert_eq!(JsonNumber::from_i32(5), JsonNumber::PosInt(5));
    assert_eq!(JsonNumber::from_i32(0), JsonNumber::PosInt(0));
    assert_eq!(JsonNumber::from_i32(i32::MIN), JsonNumber::NegInt(-2147483648));
    assert_eq!(JsonNumber::from_i8(-128), JsonNumber::NegInt(-128));
    assert_eq!(JsonNumber::from_i8(127), JsonNumber::PosInt(127));
}

#[test]
fn nested_documents_are_parsed_in_document_order() {
    let doc = parse("{\"z\":[1,{\"b\":null,\"a\":[]},\"s\"],\"a\":{\"k\":false}}").unwrap();
    let expected = Json::Object(vec![
        Member {
            key: "z".to_string(),
            value: Json::Array(vec![
                Json::Number(JsonNumber::PosInt(1)),
                Json::Object(vec![
                    Member { key: "b".to_string(), value: Json::Null },
                    Member { key: "a".to_string(), value: Json::Array(vec![]) },
                ]),
                Json::Text("s".to_string()),
            ]),
        },
        Member {
            key: "a".to_string(),
            value: Json::Object(vec![Member { key: "k".to_string(), value: Json::Bool(false) }]),
        },
    ]);
    assert_eq!(doc, expected);
    assert_eq!(doc.duplicate(), expected);
    assert_eq!(doc.clone(), expected);
}

#[test]
fn tree_of_the_json_library_is_read_as_it_is() {
    let mut map = serde_json::Map::new();
    map.insert("b".to_string(), serde_json::Value::from(1u64));
    map.insert("a".to_string(), serde_json::Value::from(vec!["x", "y"]));
    let doc = read(&serde_json::Value::Object(map));
    assert_eq!(
        doc,
        Json::Object(vec![
            Member { key: "b".to_string(), value: Json::Number(JsonNumber::PosInt(1)) },
            Member {
                key: "a".to_string(),
                value: Json::Array(vec![Json::Text("x".to_string()), Json::Text("y".to_string())]),
            },
        ])
    );
    assert_eq!(read(&serde_json::Value::Null), Json::Null);
    assert_eq!(read(&serde_json::Value::Bool(true)), Json::Bool(true));
}

#[test]
fn parser_messages_are_handed_on() {
    assert_eq!(parse("[1,"), Err("EOF while parsing a value at line 1 column 3".to_string()));
    assert_eq!(parse("{\"a\" 1}"), Err("expected `:` at line 1 column 6".to_string()));
    for text in ["", "]", "{\"a\":1,}", "\"open", "1 2", "tru"] {
        let generic = serde_json::from_str::<serde_json::Value>(text).unwrap_err();
        assert_eq!(parse(text), Err(generic.to_string()));
    }
}

#[test]
fn shapes_are_told_apart() {
    assert_eq!(Json::Null.shape(), Shape::Null);
    assert_eq!(Json::Bool(false).shape(), Shape::Boolean);
    assert_eq!(Json::Number(JsonNumber::PosInt(1)).shape(), Shape::Integer);
    assert_eq!(Json::Number(JsonNumber::NegInt(-1)).shape(), Shape::Integer);
    assert_eq!(parse("1.0").unwrap().shape(), Shape::Float);
    assert_eq!(Json::Text(String::new()).shape(), Shape::String);
    assert_eq!(Json::Array(vec![]).shape(), Shape::Array);
    assert_eq!(Json::Object(vec![]).shape(), Shape::Object);
}

#[test]
fn lookup_takes_the_first_member_of_that_name() {
    let members = vec![
        Member { key: "a".to_string(), value: Json::Bool(true) },
        Member { key: "b".to_string(), value: Json::Null },
        Member { key: "a".to_string(), value: Json::Bool(false) },
        Member { key: "".to_string(), value: Json::Text("empty".to_string()) },
    ];
    assert_eq!(find(&members, "a"), Some(&Json::Bool(true)));
    assert_eq!(find(&members, "b"), Some(&Json::Null));
    assert_eq!(find(&members, ""), Some(&Json::Text("empty".to_string())));
    assert_eq!(find(&members, "A"), None);
    assert_eq!(find(&members, "ab"), None);
    assert_eq!(find(&Vec::new(), "a"), None);
    assert_eq!(members[1].duplicate(), members[1]);
    assert_eq!(members[3].clone(), members[3]);
}
