//! The JSON subset against the reference crate and around its edges.

use kaws::json::{object_get, parse_flat_object, write_json_string};

fn get<'a>(pairs: &'a Vec<(Vec<u8>, Vec<u8>)>, key: &str) -> Option<&'a Vec<u8>> {
    object_get(pairs, key.as_bytes())
}

#[test]
fn parses_reference_crate_output() {
    let value: serde_json::Value =
        serde_json::from_str("{\"cert\":\"line one\\nline two\",\"key\":\"k\\\"quoted\\\"\"}")
            .unwrap();
    let compact = serde_json::to_string(&value).unwrap();
    let pairs = parse_flat_object(compact.as_bytes()).unwrap();
    assert_eq!(
        get(&pairs, "cert").unwrap().as_slice(),
        value["cert"].as_str().unwrap().as_bytes()
    );
    assert_eq!(
        get(&pairs, "key").unwrap().as_slice(),
        value["key"].as_str().unwrap().as_bytes()
    );
}

#[test]
fn written_strings_match_reference_crate() {
    let contents = [
        "plain",
        "with \"quotes\" and \\backslashes\\",
        "control\u{8}\u{9}\u{a}\u{c}\u{d}\u{1f}\u{0}end",
        "",
    ];
    for content in contents {
        let mut out: Vec<u8> = Vec::new();
        write_json_string(&mut out, content.as_bytes());
        let reference = serde_json::to_string(&serde_json::Value::String(content.to_owned()))
            .unwrap();
        assert_eq!(String::from_utf8(out).unwrap(), reference);
    }
}

#[test]
fn parses_whitespace_and_unicode_escapes() {
    let text = " { \"a\" : \"x\\u0041y\" , \"b\" : \"\\/slash\" } ";
    let pairs = parse_flat_object(text.as_bytes()).unwrap();
    assert_eq!(get(&pairs, "a").unwrap().as_slice(), b"xAy");
    assert_eq!(get(&pairs, "b").unwrap().as_slice(), b"/slash");
}

#[test]
fn parses_empty_object() {
    let pairs = parse_flat_object(b"{}").unwrap();
    assert!(pairs.is_empty());
    assert!(get(&pairs, "anything").is_none());
}

#[test]
fn rejects_malformed_objects() {
    assert!(parse_flat_object(b"").is_err());
    assert!(parse_flat_object(b"{").is_err());
    assert!(parse_flat_object(b"{\"a\":\"b\"} trailing").is_err());
    assert!(parse_flat_object(b"{\"a\":1}").is_err());
    assert!(parse_flat_object(b"{\"a\":\"b\",}").is_err());
    assert!(parse_flat_object(b"{\"a\" \"b\"}").is_err());
    assert!(parse_flat_object(b"[\"a\"]").is_err());
    assert!(parse_flat_object(b"{\"a\":\"\\q\"}").is_err());
    assert!(parse_flat_object(b"{\"a\":\"\\u00e9\"}").is_err());
    let e = parse_flat_object(b"{").unwrap_err();
    assert_eq!(e.kind, kaws::error::KawsErrorKind::Parse);
    assert_eq!(e.message, "malformed JSON object");
}

#[test]
fn first_value_wins_for_repeated_keys() {
    let pairs = parse_flat_object(b"{\"a\":\"first\",\"a\":\"second\"}").unwrap();
    assert_eq!(get(&pairs, "a").unwrap().as_slice(), b"first");
}
