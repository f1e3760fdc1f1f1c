use opencode_engine::json::{read_bytes, read_text, read_value, Json};
use opencode_engine::opencode::opencode_details;
use opencode_engine::text::joined;

#[test]
fn numbers_are_read_by_their_value() {
    let value = read_text("[0, 18446744073709551615, -9223372036854775808, 1.50, 1e2, 18446744073709551616]")
        .expect("valid document");
    let items = value.as_array().expect("array");
    assert_eq!(items[0].as_u64(), Some(0));
    assert_eq!(items[0].as_i64(), Some(0));
    assert_eq!(items[1].as_u64(), Some(u64::MAX));
    assert_eq!(items[1].as_i64(), None);
    assert_eq!(items[2].as_u64(), None);
    assert_eq!(items[2].as_i64(), Some(i64::MIN));
    assert!(matches!(&items[3], Json::Decimal(text) if text == "1.5"));
    assert!(matches!(&items[4], Json::Decimal(text) if text == "100.0"));
    assert!(matches!(&items[5], Json::Decimal(_)));
    assert_eq!(items[4].as_u64(), None);
}

#[test]
fn fields_are_found_by_their_key() {
    let value = read_text(r#"{"a": null, "b": true, "c": "x", "a": {"d": false}}"#)
        .expect("valid document");
    assert_eq!(value.get("b").and_then(|b| b.as_bool()), Some(true));
    assert_eq!(value.get("c").and_then(|c| c.as_str()), Some("x"));
    assert_eq!(
        value.get("a").and_then(|a| a.get("d")).and_then(|d| d.as_bool()),
        Some(false)
    );
    assert!(value.get("e").is_none());
    assert!(value.get_or("e", "b").is_some());
    assert!(value.get("c").and_then(|c| c.get("b")).is_none());
    assert!(value.is_object());
    assert!(!Json::Null.is_object());
    assert!(value.as_array().is_none());
}

#[test]
fn texts_may_be_refused() {
    assert!(read_text("").is_none());
    assert!(read_text("{").is_none());
    assert!(read_text("1 2").is_none());
    assert_eq!(
        read_bytes(b"").expect_err("an error").to_string(),
        "EOF while parsing a value at line 1 column 0"
    );
    assert_eq!(
        read_bytes(b"[1,\n x]").expect_err("an error").to_string(),
        "expected value at line 2 column 2"
    );
    assert!(read_bytes(&[0xff]).is_err());
    assert!(matches!(read_bytes(b" null "), Ok(Json::Null)));
}

#[test]
fn a_copy_has_the_same_contents() {
    let value = read_text(r#"{"a": [1, {"b": "x"}, 2.5], "c": null}"#).expect("valid document");
    assert_eq!(format!("{:?}", value.clone()), format!("{:?}", value));
}

#[test]
fn codex_details_are_told_of_opencode() {
    assert_eq!(opencode_details(None), None);
    assert_eq!(
        opencode_details(Some("`codex` and `codex`: codex".to_string())).as_deref(),
        Some("`opencode` and `opencode`: codex")
    );
    assert_eq!(
        opencode_details(Some("`codex`codex`".to_string())).as_deref(),
        Some("`opencode`codex`")
    );
    assert_eq!(joined("a", "é"), "aé");
}

#[test]
fn a_document_is_taken_over_whole() {
    let mut fields = serde_json::Map::new();
    fields.insert("b".to_string(), serde_json::Value::from(vec![1, -2]));
    fields.insert("a".to_string(), serde_json::Value::from("x"));
    fields.insert("c".to_string(), serde_json::Value::Null);
    let value = serde_json::Value::Object(fields);
    let taken = read_value(value.clone());
    assert_eq!(
        format!("{:?}", taken),
        format!("{:?}", read_text(&value.to_string()).expect("valid document"))
    );
    assert_eq!(taken.get("a").and_then(|a| a.as_str()), Some("x"));
    let items = taken.get("b").and_then(|b| b.as_array()).expect("array");
    assert_eq!(items[1].as_i64(), Some(-2));
    assert!(matches!(taken.get("c"), Some(Json::Null)));
}
