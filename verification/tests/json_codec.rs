use gemini::json::{JsonNum, JsonValue};
use gemini::v1beta::session::connect_url;

#[test]
fn json_text_round_trips_through_the_parser() {
    let cases = [
        "null",
        "true",
        "false",
        "0",
        "-17",
        "3.5e-2",
        "\"hi\"",
        "\"a\\\"b\\\\c\\n\\u0001\"",
        "[]",
        "[1,[2,3],{\"k\":null}]",
        "{\"a\":1,\"b\":[true,\"x\"]}",
    ];
    for case in cases {
        let v = JsonValue::parse(case).expect("case parses");
        let text = v.to_text();
        let again = JsonValue::parse(&text).expect("canonical text parses");
        assert_eq!(text, again.to_text());
    }
}

#[test]
fn parser_accepts_whitespace_and_rejects_malformed_text() {
    assert!(JsonValue::parse(" \t\n{ \"a\" : [ 1 , 2 ] } \r\n").is_some());
    for bad in ["", "{", "[1,]", "{\"a\":}", "01", "+1", "\"unterminated", "nul", "1 2"] {
        assert!(JsonValue::parse(bad).is_none(), "accepted: {}", bad);
    }
}

#[test]
fn object_lookup_finds_the_first_matching_key() {
    let v = JsonValue::parse(r#"{"a": 1, "b": 2, "a": 3}"#).unwrap();
    assert_eq!(v.get("a").unwrap().as_num().unwrap().as_text(), "1");
    assert_eq!(v.get("b").unwrap().as_num().unwrap().as_text(), "2");
    assert!(v.get("c").is_none());
}

#[test]
fn numbers_keep_their_literal_and_convert_exactly() {
    assert_eq!(JsonNum::from_i64(-42).as_text(), "-42");
    assert_eq!(JsonNum::from_i64(0).as_text(), "0");
    assert_eq!(JsonNum::from_u64(18446744073709551615).as_text(), "18446744073709551615");

    let n = JsonNum::from_text("2.5e3").expect("valid literal");
    assert_eq!(n.as_text(), "2.5e3");
    assert!(JsonNum::from_text("01").is_none());
    assert!(JsonNum::from_text("--3").is_none());

    assert_eq!(JsonNum::from_text("9007").unwrap().to_i64(), Some(9007));
    assert_eq!(JsonNum::from_text("-1").unwrap().to_i64(), Some(-1));
    assert_eq!(
        JsonNum::from_text("9223372036854775807").unwrap().to_i64(),
        Some(i64::MAX)
    );
    assert_eq!(
        JsonNum::from_text("-9223372036854775808").unwrap().to_i64(),
        Some(i64::MIN)
    );
    assert_eq!(JsonNum::from_text("9223372036854775808").unwrap().to_i64(), None);
    assert_eq!(JsonNum::from_text("2.5").unwrap().to_i64(), None);
}

#[test]
fn string_escapes_round_trip() {
    let v = JsonValue::parse("\"\\u0041\\t\\\"\\\\\"").unwrap();
    assert_eq!(v.as_str().unwrap().as_str(), "A\t\"\\");
    let text = v.to_text();
    let again = JsonValue::parse(&text).unwrap();
    assert_eq!(again.as_str().unwrap().as_str(), "A\t\"\\");
}

#[test]
fn connect_url_appends_the_encoded_credential() {
    assert_eq!(
        connect_url("wss://example/path", "a key+1"),
        "wss://example/path?key=a+key%2B1"
    );
    assert_eq!(
        connect_url("wss://example/path?x=1", "k"),
        "wss://example/path?x=1&key=k"
    );
}
