use serde_json::Value;
use slack_mcp::json::{JsonNumber, JsonValue};

fn conv(v: Value) -> JsonValue {
    match v {
        Value::Null => JsonValue::Null,
        Value::Bool(b) => JsonValue::Bool(b),
        Value::Number(n) => JsonValue::Number(if let Some(u) = n.as_u64() {
            JsonNumber::PosInt(u)
        } else if let Some(i) = n.as_i64() {
            JsonNumber::NegInt(i)
        } else {
            JsonNumber::Float(n.to_string())
        }),
        Value::String(s) => JsonValue::String(s),
        Value::Array(a) => JsonValue::Array(a.into_iter().map(conv).collect()),
        Value::Object(m) => JsonValue::Object(m.into_iter().map(|(k, v)| (k, conv(v))).collect()),
    }
}

fn j(text: &str) -> JsonValue {
    conv(serde_json::from_str(text).unwrap())
}

#[test]
fn get_reads_object_members() {
    let v = j(r#"{"a": 1, "b": "two", "c": [1, 2, 3], "d": true, "e": -4, "f": 1.5}"#);
    assert_eq!(v.get("a"), Some(&JsonValue::Number(JsonNumber::PosInt(1))));
    assert_eq!(v.get("z"), None);
    assert_eq!(v.get_str("b"), Some("two"));
    assert_eq!(v.get_str("a"), None);
    assert_eq!(v.get_u64("a"), Some(1));
    assert_eq!(v.get_u64("e"), None);
    assert_eq!(v.get_u64("f"), None);
    assert_eq!(v.get_bool("d"), Some(true));
    assert_eq!(v.get_bool("a"), None);
    assert_eq!(v.get("c").unwrap().array_len(), 3);
    assert_eq!(v.array_len(), 0);
    assert_eq!(v.get_or_null("zz"), JsonValue::Null);
    assert_eq!(v.get_or_null("c"), j("[1,2,3]"));
}

#[test]
fn get_on_a_non_object_finds_nothing() {
    assert_eq!(j("[1]").get("a"), None);
    assert_eq!(j("\"text\"").get("a"), None);
    assert_eq!(JsonValue::Null.get("a"), None);
}

#[test]
fn get_finds_the_first_member_with_a_key() {
    let v = JsonValue::Object(vec![
        ("k".to_string(), JsonValue::Bool(true)),
        ("k".to_string(), JsonValue::Bool(false)),
    ]);
    assert_eq!(v.get_bool("k"), Some(true));
}

#[test]
fn deep_copy_is_equal() {
    let v = j(r#"{"a": [1, {"b": null}], "c": "x", "d": -2.5}"#);
    assert_eq!(v.deep_copy(), v);
}
