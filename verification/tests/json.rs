use walrus_cli::json::JsonValue;

#[test]
fn json_text_is_parsed_into_values() {
    let doc = JsonValue::parse("{\"a\": [1, -2, 1.5, true, null, \"x\"], \"b\": {}}").unwrap();
    let expected = JsonValue::Object(vec![
        (
            "a".to_string(),
            JsonValue::Array(vec![
                JsonValue::Number(1),
                JsonValue::OtherNumber("-2".to_string()),
                JsonValue::OtherNumber("1.5".to_string()),
                JsonValue::Bool(true),
                JsonValue::Null,
                JsonValue::Text("x".to_string()),
            ]),
        ),
        ("b".to_string(), JsonValue::Object(vec![])),
    ]);
    assert_eq!(doc, expected);
}

#[test]
fn json_members_keep_their_order() {
    let doc = JsonValue::parse("{\"z\": 1, \"a\": 2}").unwrap();
    assert_eq!(doc.to_text(), "{\"z\":1,\"a\":2}");
}

#[test]
fn json_that_is_malformed_is_refused() {
    assert_eq!(JsonValue::parse(""), None);
    assert_eq!(JsonValue::parse("{"), None);
    assert_eq!(JsonValue::parse("{\"a\": }"), None);
    assert_eq!(JsonValue::parse("1 2"), None);
}

#[test]
fn json_get_finds_the_first_member() {
    let doc = JsonValue::Object(vec![
        ("a".to_string(), JsonValue::Number(1)),
        ("b".to_string(), JsonValue::Number(2)),
        ("a".to_string(), JsonValue::Number(3)),
    ]);
    assert_eq!(doc.get("a"), Some(&JsonValue::Number(1)));
    assert_eq!(doc.get("b"), Some(&JsonValue::Number(2)));
    assert_eq!(doc.get("c"), None);
    assert_eq!(JsonValue::Number(1).get("a"), None);
}

#[test]
fn json_text_is_compact() {
    let doc = JsonValue::Object(vec![
        ("n".to_string(), JsonValue::Number(18446744073709551615)),
        ("t".to_string(), JsonValue::Bool(true)),
        ("f".to_string(), JsonValue::Bool(false)),
        ("z".to_string(), JsonValue::Null),
        ("l".to_string(), JsonValue::Array(vec![JsonValue::Number(1), JsonValue::Number(2)])),
        ("e".to_string(), JsonValue::Array(vec![])),
        ("o".to_string(), JsonValue::OtherNumber("-1.5".to_string())),
    ]);
    assert_eq!(
        doc.to_text(),
        "{\"n\":18446744073709551615,\"t\":true,\"f\":false,\"z\":null,\"l\":[1,2],\"e\":[],\"o\":-1.5}"
    );
}

#[test]
fn json_strings_are_quoted_and_escaped() {
    assert_eq!(JsonValue::Text("plain".to_string()).to_text(), "\"plain\"");
    assert_eq!(JsonValue::Text("a\"b\\c\nd".to_string()).to_text(), "\"a\\\"b\\\\c\\nd\"");
    let doc = JsonValue::Object(vec![("k\"".to_string(), JsonValue::Null)]);
    assert_eq!(doc.to_text(), "{\"k\\\"\":null}");
}

#[test]
fn json_text_parses_back() {
    let doc = JsonValue::Object(vec![
        ("s".to_string(), JsonValue::Text("tab\there".to_string())),
        ("n".to_string(), JsonValue::Number(42)),
    ]);
    assert_eq!(JsonValue::parse(&doc.to_text()), Some(doc));
}

#[test]
fn json_strings_escape_what_must_be_escaped() {
    let quoted = |text: &str| JsonValue::Text(text.to_string()).to_text();
    assert_eq!(quoted(""), "\"\"");
    assert_eq!(quoted("\u{8}\t\n\u{c}\r"), "\"\\b\\t\\n\\f\\r\"");
    assert_eq!(quoted("\u{0}\u{1}\u{b}\u{e}\u{1f}"), "\"\\u0000\\u0001\\u000b\\u000e\\u001f\"");
    assert_eq!(quoted("\u{1a}"), "\"\\u001a\"");
    assert_eq!(quoted(" /'\u{7f}"), "\" /'\u{7f}\"");
    assert_eq!(quoted("h\u{e9}llo \u{1f600}"), "\"h\u{e9}llo \u{1f600}\"");
    assert_eq!(quoted("\"\\"), "\"\\\"\\\\\"");
}
