use awtrix3::error::SerializationError;
use awtrix3::json::Json;
use awtrix3::models::app::{AppInfo, CustomApp};
use awtrix3::models::response::{IndicatorStates, LoopInfo, Stats};
use awtrix3::models::settings::Settings;
use awtrix3::text::{
    chars_of, contains_char, contains_text, decimal_digit, hex_digit, is_whitespace_char,
    parse_unsigned, read_bool, render_bool, render_unsigned, same_text, split, trim,
};
use awtrix3::wire::{find_once, names_in, object_of, present, DecodeError};
use awtrix3::AwtrixError;

fn chars(text: &str) -> Vec<char> {
    text.chars().collect()
}

#[test]
fn a_text_is_read_into_a_document() {
    let json = Json::parse("{\"a\":[1,-2,2.5,\"x\",true,null],\"b\":{}}").unwrap();
    match json {
        Json::Object(members) => {
            assert_eq!(members.len(), 2);
            assert_eq!(members[0].0, "a");
            match &members[0].1 {
                Json::Array(items) => {
                    assert_eq!(items.len(), 6);
                    assert!(matches!(items[0], Json::Unsigned(1)));
                    assert!(matches!(items[1], Json::Negative(-2)));
                    assert!(matches!(items[2], Json::Real(_)));
                    assert!(matches!(&items[3], Json::Text(t) if t == "x"));
                    assert!(matches!(items[4], Json::Bool(true)));
                    assert!(matches!(items[5], Json::Null));
                }
                other => panic!("unexpected: {:?}", other),
            }
            assert!(matches!(&members[1].1, Json::Object(inner) if inner.is_empty()));
        }
        other => panic!("unexpected: {:?}", other),
    }
    assert!(matches!(Json::parse("18446744073709551615").unwrap(), Json::Unsigned(u64::MAX)));
    assert!(matches!(Json::parse("-9223372036854775808").unwrap(), Json::Negative(i64::MIN)));
    assert!(matches!(Json::parse("18446744073709551616").unwrap(), Json::Real(_)));
}

#[test]
fn a_text_that_is_no_document_is_refused() {
    for text in ["", "{", "[1,]", "{\"a\":}", "nul", "{'a':1}", "1 2"] {
        assert!(
            matches!(Json::parse(text), Err(AwtrixError::Serialization(SerializationError::Syntax(_)))),
            "{:?}",
            text
        );
    }
}

#[test]
fn a_document_is_written_as_text() {
    let json = Json::Object(vec![
        ("z".to_string(), Json::Array(vec![Json::Unsigned(1), Json::Negative(-1), Json::Null])),
        ("a".to_string(), Json::Text("q\"uote".to_string())),
        ("m".to_string(), Json::Bool(false)),
    ]);
    assert_eq!(json.to_text().unwrap(), "{\"a\":\"q\\\"uote\",\"m\":false,\"z\":[1,-1,null]}");
    assert_eq!(Json::parse("2.50").unwrap().to_text().unwrap(), "2.5");
    assert_eq!(Json::Array(Vec::new()).to_text().unwrap(), "[]");
    assert_eq!(Json::Text("é".to_string()).to_text().unwrap(), "\"é\"");
}

#[test]
fn a_member_is_found_under_its_key() {
    let members = vec![
        ("a".to_string(), Json::Unsigned(1)),
        ("b".to_string(), Json::Unsigned(2)),
        ("a".to_string(), Json::Unsigned(3)),
        ("n".to_string(), Json::Null),
    ];
    assert!(matches!(find_once(&members, "b"), Ok(Some(Json::Unsigned(2)))));
    assert!(matches!(find_once(&members, "n"), Ok(Some(Json::Null))));
    assert!(matches!(find_once(&members, "c"), Ok(None)));
    assert!(matches!(find_once(&Vec::new(), "a"), Ok(None)));
    match find_once(&members, "a") {
        Err(DecodeError::Duplicate(key)) => assert_eq!(key, "a"),
        other => panic!("unexpected: {:?}", other),
    }
    assert!(matches!(present(&members, "b"), Ok(Some(Json::Unsigned(2)))));
    assert!(matches!(present(&members, "n"), Ok(None)));
    assert!(matches!(present(&members, "c"), Ok(None)));
    assert!(matches!(present(&members, "a"), Err(DecodeError::Duplicate(_))));
    let thrice = vec![
        ("k".to_string(), Json::Null),
        ("k".to_string(), Json::Null),
        ("k".to_string(), Json::Null),
    ];
    assert!(matches!(find_once(&thrice, "k"), Err(DecodeError::Duplicate(_))));
}

#[test]
fn an_object_holds_the_fields_that_have_a_value() {
    let json = object_of(vec![
        ("one", Some(Json::Unsigned(1))),
        ("none", None),
        ("two", Some(Json::Null)),
    ]);
    assert_eq!(json.to_text().unwrap(), "{\"one\":1,\"two\":null}");
    assert_eq!(object_of(Vec::new()).to_text().unwrap(), "{}");
    assert_eq!(object_of(vec![("x", None)]).to_text().unwrap(), "{}");
}

#[test]
fn names_are_the_texts_of_an_array() {
    assert_eq!(names_in(&Json::parse("[\"a\",1,\"b\"]").unwrap()), vec!["a".to_string(), "b".to_string()]);
    assert_eq!(names_in(&Json::parse("[]").unwrap()), Vec::<String>::new());
    assert_eq!(names_in(&Json::parse("\"a\"").unwrap()), Vec::<String>::new());
    assert_eq!(names_in(&Json::Null), Vec::<String>::new());
}

#[test]
fn indicator_states_need_all_three() {
    let json = Json::parse("{\"indicator1\":true,\"indicator2\":false,\"indicator3\":true}").unwrap();
    assert_eq!(
        IndicatorStates::from_json(&json).unwrap(),
        IndicatorStates { indicator1: true, indicator2: false, indicator3: true }
    );
    match IndicatorStates::from_json(&Json::parse("{\"indicator1\":true,\"indicator3\":true}").unwrap()) {
        Err(DecodeError::Missing(key)) => assert_eq!(key, "indicator2"),
        other => panic!("unexpected: {:?}", other),
    }
    match IndicatorStates::from_json(&Json::parse("{\"indicator1\":null}").unwrap()) {
        Err(DecodeError::Invalid(key)) => assert_eq!(key, "indicator1"),
        other => panic!("unexpected: {:?}", other),
    }
    assert!(matches!(IndicatorStates::from_json(&Json::Bool(true)), Err(DecodeError::NotAnObject)));
}

#[test]
fn digits_have_their_values() {
    assert_eq!(hex_digit('0'), Some(0));
    assert_eq!(hex_digit('9'), Some(9));
    assert_eq!(hex_digit('a'), Some(10));
    assert_eq!(hex_digit('F'), Some(15));
    assert_eq!(hex_digit('g'), None);
    assert_eq!(hex_digit('/'), None);
    assert_eq!(hex_digit(':'), None);
    assert_eq!(hex_digit('\u{ff11}'), None);
    assert_eq!(decimal_digit('7'), Some(7));
    assert_eq!(decimal_digit('a'), None);
}

#[test]
fn white_space_is_what_unicode_says_it_is() {
    for code in 0u32..=0x10ffff {
        if let Some(c) = char::from_u32(code) {
            assert_eq!(is_whitespace_char(c), c.is_whitespace(), "U+{:04X}", code);
        }
    }
    assert_eq!(trim(&chars("  a b \t")), chars("a b"));
    assert_eq!(trim(&chars("\u{2003}x\u{feff}")), chars("x\u{feff}"));
    assert_eq!(trim(&chars(" \n ")), chars(""));
    assert_eq!(trim(&chars("")), chars(""));
    assert_eq!(trim(&chars("ab")), chars("ab"));
}

#[test]
fn a_text_splits_at_every_separator() {
    assert_eq!(split(&chars("a,b,c"), ','), vec![chars("a"), chars("b"), chars("c")]);
    assert_eq!(split(&chars(""), ','), vec![chars("")]);
    assert_eq!(split(&chars(","), ','), vec![chars(""), chars("")]);
    assert_eq!(split(&chars("a,,b,"), ','), vec![chars("a"), chars(""), chars("b"), chars("")]);
    assert_eq!(split(&chars("abc"), ','), vec![chars("abc")]);
    assert!(contains_char(&chars("a,b"), ','));
    assert!(!contains_char(&chars("ab"), ','));
    assert!(contains_text(&chars("xawtrix"), "awtrix"));
    assert!(contains_text(&chars("abc"), ""));
    assert!(!contains_text(&chars("awtri"), "awtrix"));
    assert_eq!(chars_of("héllo"), chars("héllo"));
    assert!(same_text("a", "a") && !same_text("a", "A") && !same_text("a", "ab") && same_text("", ""));
}

#[test]
fn numbers_are_read_and_written_in_decimal() {
    assert_eq!(parse_unsigned(&chars("0"), 255), Some(0));
    assert_eq!(parse_unsigned(&chars("255"), 255), Some(255));
    assert_eq!(parse_unsigned(&chars("256"), 255), None);
    assert_eq!(parse_unsigned(&chars("+12"), 255), Some(12));
    assert_eq!(parse_unsigned(&chars("0012"), 255), Some(12));
    assert_eq!(parse_unsigned(&chars("4294967295"), u32::MAX), Some(u32::MAX));
    assert_eq!(parse_unsigned(&chars("4294967296"), u32::MAX), None);
    for text in ["", "+", "-", "-0", "++1", "1+", " 1", "1 ", "1_0", "0x1", "१"] {
        assert_eq!(parse_unsigned(&chars(text), u32::MAX), None, "{:?}", text);
    }
    assert_eq!(render_unsigned(0), "0");
    assert_eq!(render_unsigned(7), "7");
    assert_eq!(render_unsigned(10), "10");
    assert_eq!(render_unsigned(1234567890), "1234567890");
    assert_eq!(render_unsigned(u64::MAX), "18446744073709551615");
    for n in [0u32, 9, 10, 99, 100, 4096, u32::MAX] {
        assert_eq!(parse_unsigned(&chars(&render_unsigned(n as u64)), u32::MAX), Some(n));
        assert_eq!(render_unsigned(n as u64), n.to_string());
    }
}

#[test]
fn truth_values_are_read_and_written_in_lower_case() {
    assert_eq!(read_bool("true"), Some(true));
    assert_eq!(read_bool("false"), Some(false));
    for text in ["", "True", "FALSE", "1", "0", " true", "yes"] {
        assert_eq!(read_bool(text), None, "{:?}", text);
    }
    assert_eq!(render_bool(true), "true");
    assert_eq!(render_bool(false), "false");
}

#[test]
fn every_reader_refuses_a_repeated_key() {
    fn member(key: &str, json: Json) -> (String, Json) {
        (key.to_string(), json)
    }
    fn duplicate<T: std::fmt::Debug>(result: Result<T, DecodeError>, field: &str) {
        match result {
            Err(DecodeError::Duplicate(key)) => assert_eq!(key, field),
            other => panic!("unexpected: {:?}", other),
        }
    }
    let states = Json::Object(vec![
        member("indicator1", Json::Bool(true)),
        member("indicator2", Json::Bool(true)),
        member("indicator3", Json::Bool(true)),
        member("indicator2", Json::Bool(true)),
    ]);
    duplicate(IndicatorStates::from_json(&states), "indicator2");
    let app = Json::Object(vec![
        member("name", Json::Text("a".to_string())),
        member("name", Json::Text("a".to_string())),
    ]);
    duplicate(AppInfo::from_json(&app), "name");
    let apps = Json::Object(vec![
        member("apps", Json::Array(Vec::new())),
        member("current", Json::Null),
        member("apps", Json::Array(Vec::new())),
    ]);
    duplicate(LoopInfo::from_json(&apps), "apps");
    let current = Json::Object(vec![
        member("apps", Json::Array(Vec::new())),
        member("current", Json::Null),
        member("current", Json::Text("Time".to_string())),
    ]);
    duplicate(LoopInfo::from_json(&current), "current");
    let inner = Json::Object(vec![member(
        "apps",
        Json::Array(vec![Json::Object(vec![
            member("name", Json::Text("a".to_string())),
            member("enabled", Json::Bool(true)),
            member("enabled", Json::Bool(true)),
        ])]),
    )]);
    duplicate(LoopInfo::from_json(&inner), "enabled");
    let app = Json::Object(vec![
        member("pos", Json::Unsigned(1)),
        member("pos", Json::Unsigned(2)),
    ]);
    duplicate(CustomApp::from_json(&app), "pos");
    let settings = Json::Object(vec![
        member("brightness", Json::Unsigned(1)),
        member("timeApp", Json::Null),
        member("brightness", Json::Unsigned(1)),
        member("timeApp", Json::Null),
    ]);
    duplicate(Settings::from_json(&settings), "brightness");
    let group = Json::Object(vec![
        member("timeApp", Json::Object(Vec::new())),
        member("timeApp", Json::Object(Vec::new())),
    ]);
    duplicate(Settings::from_json(&group), "timeApp");
    let within = Json::Object(vec![member(
        "dateApp",
        Json::Object(vec![
            member("format", Json::Text("x".to_string())),
            member("format", Json::Text("y".to_string())),
        ]),
    )]);
    duplicate(Settings::from_json(&within), "format");
    let stats = Json::Object(vec![
        member("uptime", Json::Unsigned(1)),
        member("wifiSignal", Json::Negative(-60)),
        member("heap", Json::Unsigned(1)),
        member("matrix", Json::Bool(true)),
        member("wifiSignal", Json::Negative(-60)),
        member("lux", Json::Unsigned(1)),
        member("lux", Json::Unsigned(1)),
    ]);
    duplicate(Stats::from_json(&stats), "wifiSignal");
}
