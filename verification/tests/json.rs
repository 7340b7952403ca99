use paged_fetch::json::{path_value, PathValue};

fn read(text: &str) -> PathValue {
    let value: serde_json::Value = serde_json::from_str(text).unwrap();
    path_value(Some(&value))
}

#[test]
fn missing_value() {
    assert!(matches!(path_value(None), PathValue::Missing));
}

#[test]
fn booleans() {
    assert!(matches!(read("true"), PathValue::Bool(true)));
    assert!(matches!(read("false"), PathValue::Bool(false)));
    assert!(read("true").is_true());
    assert!(!read("false").is_true());
    assert!(!read("\"true\"").is_true());
    assert!(!read("1").is_true());
}

#[test]
fn strings() {
    for (text, expected) in [
        ("\"\"", ""),
        ("\"abc\"", "abc"),
        ("\"a\\\"b\\\\c\\n\\u0001\"", "a\"b\\c\n\u{1}"),
        ("\"true\"", "true"),
    ] {
        assert!(matches!(read(text), PathValue::Text(value) if value == expected));
    }
}

#[test]
fn other_values() {
    for text in ["null", "0", "-1.5", "[true]", "{\"ok\":true}", "[]", "{}"] {
        assert!(matches!(read(text), PathValue::Other));
    }
}

#[test]
fn control_characters_in_json_text() {
    for code in 0u32..0x20 {
        let c = char::from_u32(code).unwrap();
        let text = serde_json::to_string(&serde_json::Value::String(c.to_string())).unwrap();
        let expected = match code {
            0x08 => "\"\\b\"".to_string(),
            0x09 => "\"\\t\"".to_string(),
            0x0a => "\"\\n\"".to_string(),
            0x0c => "\"\\f\"".to_string(),
            0x0d => "\"\\r\"".to_string(),
            _ => format!("\"\\u{:04x}\"", code),
        };
        assert_eq!(text, expected);
        assert!(matches!(read(&text), PathValue::Text(value) if value == c.to_string()));
    }
    assert!(matches!(read("\"\u{7f}\u{e9}/\""), PathValue::Text(value) if value == "\u{7f}\u{e9}/"));
}
