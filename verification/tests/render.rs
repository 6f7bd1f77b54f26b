use passiogo_rs::json::{JsonNumber, JsonValue};
use passiogo_rs::render::render;

fn given(v: &serde_json::Value) -> JsonValue {
    match v {
        serde_json::Value::Null => JsonValue::Null,
        serde_json::Value::Bool(b) => JsonValue::Bool(*b),
        serde_json::Value::Number(n) => {
            if let Some(u) = n.as_u64() {
                JsonValue::Number(JsonNumber::PosInt(u))
            } else if let Some(i) = n.as_i64() {
                JsonValue::Number(JsonNumber::NegInt(i))
            } else {
                let f = n.as_f64().unwrap();
                JsonValue::Number(JsonNumber::Float { bits: f.to_bits(), text: n.to_string() })
            }
        }
        serde_json::Value::String(s) => JsonValue::String(s.clone()),
        serde_json::Value::Array(items) => JsonValue::Array(items.iter().map(given).collect()),
        serde_json::Value::Object(members) => {
            JsonValue::Object(members.iter().map(|(k, v)| (k.clone(), given(v))).collect())
        }
    }
}

fn agrees(document: &str) {
    let outside: serde_json::Value = serde_json::from_str(document).unwrap();
    assert_eq!(render(&given(&outside)), outside.to_string(), "{}", document);
}

#[test]
fn render_writes_scalars() {
    assert_eq!(render(&JsonValue::Null), "null");
    assert_eq!(render(&JsonValue::Bool(true)), "true");
    assert_eq!(render(&JsonValue::Bool(false)), "false");
    assert_eq!(render(&JsonValue::Number(JsonNumber::PosInt(0))), "0");
    assert_eq!(render(&JsonValue::Number(JsonNumber::PosInt(1234567890))), "1234567890");
    assert_eq!(render(&JsonValue::Number(JsonNumber::NegInt(-17))), "-17");
    assert_eq!(render(&JsonValue::Number(JsonNumber::NegInt(17))), "17");
    assert_eq!(render(&JsonValue::String("bus".to_string())), "\"bus\"");
}

#[test]
fn render_escapes_strings() {
    assert_eq!(render(&JsonValue::String("a\"b".to_string())), "\"a\\\"b\"");
    assert_eq!(render(&JsonValue::String("a\\b".to_string())), "\"a\\\\b\"");
    assert_eq!(render(&JsonValue::String("\n\r\t".to_string())), "\"\\n\\r\\t\"");
    assert_eq!(render(&JsonValue::String("\u{08}\u{0c}".to_string())), "\"\\b\\f\"");
    assert_eq!(render(&JsonValue::String("\u{00}\u{1f}".to_string())), "\"\\u0000\\u001f\"");
    assert_eq!(render(&JsonValue::String("\u{0b}".to_string())), "\"\\u000b\"");
    assert_eq!(render(&JsonValue::String("\u{7f}/é✓".to_string())), "\"\u{7f}/é✓\"");
}

#[test]
fn render_frames_arrays_and_objects() {
    assert_eq!(render(&JsonValue::Array(vec![])), "[]");
    assert_eq!(render(&JsonValue::Object(vec![])), "{}");
    let list = JsonValue::Array(vec![
        JsonValue::Number(JsonNumber::PosInt(1)),
        JsonValue::Array(vec![JsonValue::Null]),
        JsonValue::Number(JsonNumber::Float { bits: 2.5f64.to_bits(), text: "2.5".to_string() }),
    ]);
    assert_eq!(render(&list), "[1,[null],2.5]");
    let object = JsonValue::Object(vec![
        ("a\"".to_string(), JsonValue::Bool(true)),
        ("b".to_string(), JsonValue::Object(vec![("c".to_string(), JsonValue::Null)])),
    ]);
    assert_eq!(render(&object), "{\"a\\\"\":true,\"b\":{\"c\":null}}");
}

#[test]
fn render_agrees_with_serde_json() {
    agrees("null");
    agrees("true");
    agrees("0");
    agrees("-0");
    agrees("18446744073709551615");
    agrees("-9223372036854775808");
    agrees("1.0");
    agrees("-0.0");
    agrees("1e21");
    agrees("1.5e-7");
    agrees("0.1");
    agrees("123456789.125");
    agrees("\"\"");
    agrees("\"plain\"");
    agrees("\"q\\\"b\\\\s\\/\\b\\f\\n\\r\\t\\u0001\\u001f\\u007f\\u00e9\\ud83d\\ude8c\"");
    agrees("[]");
    agrees("{}");
    agrees("[1, 2.5, \"x\", null, [true, []], {\"k\": {}}]");
    agrees("{\"b\": 1, \"a\": [1, {\"z\": \"\\\"\"}], \"c\\n\": -3.25}");
    agrees("{\"routes\": {\"12\": [\"h\", \"h\", [1.0, \"S1\"]]}, \"stops\": {\"ID1\": {\"id\": \"S1\"}}}");
}
