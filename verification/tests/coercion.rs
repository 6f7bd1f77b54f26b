use passiogo_rs::float_text::writes_float;
use passiogo_rs::helpers::{to_bool, to_f64, to_i64, to_string_opt};
use passiogo_rs::json::{JsonNumber, JsonValue};
use passiogo_rs::types::FloatValue;

fn text(s: &str) -> JsonValue {
    JsonValue::String(s.to_string())
}

fn unsigned(n: u64) -> JsonValue {
    JsonValue::Number(JsonNumber::PosInt(n))
}

fn signed(n: i64) -> JsonValue {
    JsonValue::Number(JsonNumber::NegInt(n))
}

fn float(f: f64, rendering: &str) -> JsonValue {
    JsonValue::Number(JsonNumber::Float { bits: f.to_bits(), text: rendering.to_string() })
}

fn every_kind() -> Vec<JsonValue> {
    vec![
        JsonValue::Null,
        JsonValue::Bool(true),
        JsonValue::Bool(false),
        unsigned(0),
        unsigned(u64::MAX),
        signed(-1),
        signed(i64::MIN),
        float(2.5, "2.5"),
        text(""),
        text("abc"),
        text("\""),
        JsonValue::Array(vec![]),
        JsonValue::Array(vec![unsigned(1), text("x")]),
        JsonValue::Object(vec![]),
        JsonValue::Object(vec![("k".to_string(), JsonValue::Null)]),
    ]
}

#[test]
fn coercions_are_total_on_every_kind() {
    assert_eq!(to_string_opt(None), None);
    assert_eq!(to_i64(None), None);
    assert_eq!(to_bool(None), None);
    assert_eq!(to_f64(None), None);
    for v in every_kind() {
        let _ = to_string_opt(Some(&v));
        let _ = to_i64(Some(&v));
        let _ = to_bool(Some(&v));
        let _ = to_f64(Some(&v));
    }
}

#[test]
fn null_coerces_to_nothing() {
    let v = JsonValue::Null;
    assert_eq!(to_string_opt(Some(&v)), None);
    assert_eq!(to_i64(Some(&v)), None);
    assert_eq!(to_bool(Some(&v)), None);
    assert_eq!(to_f64(Some(&v)), None);
}

#[test]
fn string_coerces_to_itself() {
    assert_eq!(to_string_opt(Some(&text("Lehigh"))), Some("Lehigh".to_string()));
    assert_eq!(to_string_opt(Some(&text(""))), Some(String::new()));
    assert_eq!(to_string_opt(Some(&text("\"quoted\""))), Some("\"quoted\"".to_string()));
    assert_eq!(to_string_opt(Some(&text("a\\b\n"))), Some("a\\b\n".to_string()));
}

#[test]
fn number_five_coerces_to_text_five() {
    assert_eq!(to_string_opt(Some(&unsigned(5))), Some("5".to_string()));
}

#[test]
fn numbers_coerce_to_their_decimal_text() {
    assert_eq!(to_string_opt(Some(&unsigned(0))), Some("0".to_string()));
    assert_eq!(
        to_string_opt(Some(&unsigned(u64::MAX))),
        Some("18446744073709551615".to_string())
    );
    assert_eq!(to_string_opt(Some(&signed(-42))), Some("-42".to_string()));
    assert_eq!(
        to_string_opt(Some(&signed(i64::MIN))),
        Some("-9223372036854775808".to_string())
    );
    assert_eq!(to_string_opt(Some(&float(1.5, "1.5"))), Some("1.5".to_string()));
}

#[test]
fn booleans_and_containers_coerce_to_their_compact_text() {
    assert_eq!(to_string_opt(Some(&JsonValue::Bool(true))), Some("true".to_string()));
    assert_eq!(to_string_opt(Some(&JsonValue::Bool(false))), Some("false".to_string()));
    let list = JsonValue::Array(vec![unsigned(1), text("a"), JsonValue::Null]);
    assert_eq!(to_string_opt(Some(&list)), Some("[1,\"a\",null]".to_string()));
    let object = JsonValue::Object(vec![
        ("a".to_string(), unsigned(1)),
        ("b".to_string(), JsonValue::Array(vec![])),
    ]);
    assert_eq!(to_string_opt(Some(&object)), Some("{\"a\":1,\"b\":[]}".to_string()));
}

#[test]
fn boolean_coercion_of_strings() {
    assert_eq!(to_bool(Some(&text("1"))), Some(true));
    assert_eq!(to_bool(Some(&text("0"))), Some(false));
    assert_eq!(to_bool(Some(&text("true"))), Some(true));
    assert_eq!(to_bool(Some(&text("false"))), Some(false));
    assert_eq!(to_bool(Some(&text("yes"))), None);
    assert_eq!(to_bool(Some(&text("True"))), None);
    assert_eq!(to_bool(Some(&text(""))), None);
    assert_eq!(to_bool(Some(&text("2"))), None);
}

#[test]
fn boolean_coercion_of_booleans_and_numbers() {
    assert_eq!(to_bool(Some(&JsonValue::Bool(true))), Some(true));
    assert_eq!(to_bool(Some(&JsonValue::Bool(false))), Some(false));
    assert_eq!(to_bool(Some(&unsigned(1))), Some(true));
    assert_eq!(to_bool(Some(&unsigned(7))), Some(true));
    assert_eq!(to_bool(Some(&unsigned(u64::MAX))), Some(true));
    assert_eq!(to_bool(Some(&signed(-3))), Some(true));
    assert_eq!(to_bool(Some(&unsigned(0))), Some(false));
    assert_eq!(to_bool(Some(&float(1.0, "1.0"))), None);
    assert_eq!(to_bool(Some(&JsonValue::Array(vec![]))), None);
    assert_eq!(to_bool(Some(&JsonValue::Object(vec![]))), None);
}

#[test]
fn integer_coercion_of_numeric_string() {
    assert_eq!(to_i64(Some(&text("42"))), Some(42));
    assert_eq!(to_i64(Some(&text("-42"))), Some(-42));
    assert_eq!(to_i64(Some(&text("+42"))), Some(42));
    assert_eq!(to_i64(Some(&text("007"))), Some(7));
    assert_eq!(to_i64(Some(&text("-0"))), Some(0));
    assert_eq!(to_i64(Some(&text("9223372036854775807"))), Some(i64::MAX));
    assert_eq!(to_i64(Some(&text("-9223372036854775808"))), Some(i64::MIN));
}

#[test]
fn integer_coercion_rejects_other_strings() {
    assert_eq!(to_i64(Some(&text("9223372036854775808"))), None);
    assert_eq!(to_i64(Some(&text("-9223372036854775809"))), None);
    assert_eq!(to_i64(Some(&text("99999999999999999999999"))), None);
    assert_eq!(to_i64(Some(&text("abc"))), None);
    assert_eq!(to_i64(Some(&text(""))), None);
    assert_eq!(to_i64(Some(&text("-"))), None);
    assert_eq!(to_i64(Some(&text("+"))), None);
    assert_eq!(to_i64(Some(&text(" 42"))), None);
    assert_eq!(to_i64(Some(&text("42 "))), None);
    assert_eq!(to_i64(Some(&text("4_2"))), None);
    assert_eq!(to_i64(Some(&text("4.0"))), None);
    assert_eq!(to_i64(Some(&text("--4"))), None);
    assert_eq!(to_i64(Some(&text("\u{0664}"))), None);
}

#[test]
fn integer_coercion_of_numbers() {
    assert_eq!(to_i64(Some(&unsigned(42))), Some(42));
    assert_eq!(to_i64(Some(&signed(-42))), Some(-42));
    assert_eq!(to_i64(Some(&unsigned(9223372036854775807))), Some(i64::MAX));
    assert_eq!(to_i64(Some(&unsigned(9223372036854775808))), Some(i64::MIN));
    assert_eq!(to_i64(Some(&unsigned(u64::MAX))), Some(-1));
    assert_eq!(to_i64(Some(&float(42.0, "42.0"))), None);
    assert_eq!(to_i64(Some(&JsonValue::Bool(true))), None);
    assert_eq!(to_i64(Some(&JsonValue::Array(vec![unsigned(1)]))), None);
}

#[test]
fn float_coercion_of_numbers() {
    assert_eq!(to_f64(Some(&float(2.5, "2.5"))), Some(FloatValue::Bits(2.5f64.to_bits())));
    assert_eq!(to_f64(Some(&unsigned(3))), Some(FloatValue::Unsigned(3)));
    assert_eq!(to_f64(Some(&signed(-3))), Some(FloatValue::Signed(-3)));
    assert_eq!(to_f64(Some(&JsonValue::Bool(true))), None);
    assert_eq!(to_f64(Some(&JsonValue::Array(vec![]))), None);
    assert_eq!(to_f64(Some(&JsonValue::Object(vec![]))), None);
}

#[test]
fn float_coercion_of_strings() {
    assert_eq!(to_f64(Some(&text("40.6"))), Some(FloatValue::Decimal("40.6".to_string())));
    assert_eq!(to_f64(Some(&text("-75"))), Some(FloatValue::Decimal("-75".to_string())));
    assert_eq!(to_f64(Some(&text("north"))), None);
    assert_eq!(to_f64(Some(&text(""))), None);
}

#[test]
fn float_texts_are_those_that_parse() {
    let cases = [
        "0", "1", "-1", "+1", "1.", ".5", "1.5", "-.5", "+.5e3", "1e5", "1E5", "1e+5", "1e-5",
        "1.e5", "1.5e10", "inf", "-inf", "+inf", "INF", "Inf", "infinity", "-Infinity", "INFINITY",
        "nan", "NaN", "-nan", "+NAN", "000", "0.0", "1e400", "1e-400", "123456789012345678901234567890",
        "", "+", "-", ".", "e", "e5", ".e5", "+.", "-.", "1e", "1e+", "1e-", "1e5.", "1e5e5", "1..",
        "1.2.3", "--1", "+-1", "1-", " 1", "1 ", "1_0", "0x10", "infinit", "infinityy", "in", "na",
        "nann", "i", "1f", "1.5f", "1,5", "\u{0661}", "1\u{00e9}", "\u{00e9}nf", "abc", "in\u{0066}",
        "iNf", "iNfInItY", "nAn", "1e٥", "١e5", "..5", "5.e", "5.e+", "+e5", "-inf ", "+infinity1",
    ];
    for case in cases {
        assert_eq!(writes_float(case), case.parse::<f64>().is_ok(), "{:?}", case);
    }
}
