use e_voice::cli::list;
use e_voice::daemon::{show_field, show_struct, show_tuple, tagged};
use e_voice::json::JsonObject;

#[test]
fn objects_are_put_together() {
    assert_eq!(JsonObject::new().text(), "{}");
    let object = JsonObject::new()
        .with("n", "1")
        .with_str("s", "a\"b\u{8}\u{2028}é/")
        .with_opt("none", None)
        .with_opt("some", Some("x"));
    assert_eq!(
        object.text(),
        "{\"n\":1,\"s\":\"a\\\"b\\b\u{2028}é/\",\"none\":null,\"some\":\"x\"}"
    );
    let parsed: serde_json::Value = serde_json::from_str(&object.text()).unwrap();
    assert_eq!(parsed["s"], "a\"b\u{8}\u{2028}é/");
}

#[test]
fn every_character_survives_json() {
    let all: String = ('\u{0}'..=char::MAX).collect();
    let text = JsonObject::new().with_str("s", &all).text();
    assert_eq!(text.lines().count(), 1);
    let parsed: serde_json::Value = serde_json::from_str(&text).unwrap();
    assert_eq!(parsed["s"], all);
}

#[test]
fn answers_are_tagged() {
    assert_eq!(tagged("text", "[1]"), r#"{"type":"text","payload":[1]}"#);
}

#[test]
fn lists_are_put_together() {
    assert_eq!(list(&Vec::new()), "[]");
    assert_eq!(list(&vec!["1".to_owned(), "{}".to_owned()]), "[1,{}]");
}

#[test]
fn values_are_shown() {
    assert_eq!(show_tuple("Text", "\"a\""), "Text(\"a\")");
    let fields = vec![show_field("a", "1"), show_field("b", "2")];
    assert_eq!(show_struct("S", &fields), "S { a: 1, b: 2 }");
}

#[test]
fn characters_are_escaped() {
    let text = |s: &str| JsonObject::new().with_str("", s).text();
    assert_eq!(
        text("\"\\/\u{8}\t\n\u{c}\r"),
        "{\"\":\"\\\"\\\\/\\b\\t\\n\\f\\r\"}"
    );
    for c in '\u{0}'..' ' {
        let expected = match c {
            '\u{8}' => "\\b".to_owned(),
            '\t' => "\\t".to_owned(),
            '\n' => "\\n".to_owned(),
            '\u{c}' => "\\f".to_owned(),
            '\r' => "\\r".to_owned(),
            _ => format!("\\u{:04x}", c as u32),
        };
        assert_eq!(text(&c.to_string()), format!("{{\"\":\"{expected}\"}}"));
    }
    for c in [' ', '\'', '<', '\u{7f}', '\u{80}', '\u{2028}', '\u{10ffff}'] {
        assert_eq!(text(&c.to_string()), format!("{{\"\":\"{c}\"}}"));
    }
}
