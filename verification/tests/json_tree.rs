use webdriver::json::{JsonValue, JsonField};
use webdriver::common::WebElement;
use webdriver::response::{WebDriverResponse, ValueResponse};

#[test]
fn get_field_finds_the_first_binding() {
    let v = JsonValue::Obj(vec![
        JsonField { key: "k".into(), val: JsonValue::Str("v".into()) },
        JsonField { key: "other".into(), val: JsonValue::Num(2) },
    ]);
    match v.get_field("k") {
        Some(JsonValue::Str(s)) => assert_eq!(s, "v"),
        other => panic!("unexpected: {:?}", other),
    }
    assert!(v.get_field("missing").is_none());
}

#[test]
fn deep_copy_is_equal() {
    let v = JsonValue::Obj(vec![JsonField {
        key: "a".into(),
        val: JsonValue::Arr(vec![
            JsonValue::Num(1),
            JsonValue::Obj(vec![JsonField { key: "b".into(), val: JsonValue::Null }]),
        ]),
    }]);
    let w = v.deep_copy();
    assert_eq!(v, w);
}

#[test]
fn large_u64_is_emitted_exactly() {
    let resp = WebDriverResponse::Generic(ValueResponse::new(JsonValue::Num(
        18446744073709551615u64 as i128,
    )));
    assert_eq!(resp.to_json_string(), "{\"value\":18446744073709551615}");
}

#[test]
fn non_integer_numbers_pass_through() {
    let resp = WebDriverResponse::Generic(ValueResponse::new(JsonValue::Float("1.5".into())));
    assert_eq!(resp.to_json_string(), "{\"value\":1.5}");
}

#[test]
fn string_escapes_are_emitted() {
    let resp = WebDriverResponse::Generic(ValueResponse::new(JsonValue::Str("a\"b".into())));
    assert_eq!(resp.to_json_string(), "{\"value\":\"a\\\"b\"}");
}

#[test]
fn element_reference_uses_reserved_key_exactly() {
    let w = WebElement::new("abc".into());
    let v = w.to_json();
    let expected = JsonValue::Obj(vec![JsonField {
        key: "element-6066-11e4-a52e-4f735466cecf".into(),
        val: JsonValue::Str("abc".into()),
    }]);
    assert_eq!(v, expected);
    let back = WebElement::from_json(&v).unwrap();
    assert_eq!(back, w);
}

#[test]
fn element_reference_requires_reserved_key() {
    let v = JsonValue::Obj(vec![JsonField {
        key: "element".into(),
        val: JsonValue::Str("abc".into()),
    }]);
    let err = WebElement::from_json(&v).unwrap_err();
    assert_eq!(err.message, "Could not find webelement key");
}

#[test]
fn element_reference_rejects_non_objects() {
    let err = WebElement::from_json(&JsonValue::Str("abc".into())).unwrap_err();
    assert_eq!(err.message, "Could not convert webelement to object");
    let v = JsonValue::Obj(vec![JsonField {
        key: "element-6066-11e4-a52e-4f735466cecf".into(),
        val: JsonValue::Num(3),
    }]);
    let err2 = WebElement::from_json(&v).unwrap_err();
    assert_eq!(err2.message, "Could not convert web element to string");
}
