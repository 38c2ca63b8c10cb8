use webdriver::response::{
    WebDriverResponse, CloseWindowResponse, CookieResponse, NewSessionResponse, ValueResponse,
    TimeoutsResponse, WindowRectResponse, Cookie,
};
use webdriver::json::{JsonValue, JsonField};

fn check(resp: WebDriverResponse, expected_str: &str) {
    let data = resp.to_json_string();
    let actual: serde_json::Value = serde_json::from_str(&data).unwrap();
    let expected: serde_json::Value = serde_json::from_str(expected_str).unwrap();
    assert_eq!(actual, expected);
}

#[test]
fn test_close_window() {
    let resp = WebDriverResponse::CloseWindow(CloseWindowResponse::new(vec!["test".into()]));
    let expected = r#"{"value": ["test"]}"#;
    check(resp, expected);
}

#[test]
fn test_cookie() {
    let resp = WebDriverResponse::Cookie(CookieResponse::new(vec![Cookie::new(
        "test".into(),
        "test_value".into(),
        Some("/".into()),
        None,
        None,
        true,
        false,
    )]));
    let expected = r#"{"value": [{"name": "test", "value": "test_value", "path": "/",
"domain": null, "expiry": null, "secure": true, "httpOnly": false}]}"#;
    check(resp, expected);
}

#[test]
fn test_window_rect() {
    let resp = WebDriverResponse::WindowRect(WindowRectResponse {
        x: 0i64,
        y: 1i64,
        width: 2u64,
        height: 3u64,
    });
    let expected = r#"{"value": {"x": 0, "y": 1, "width": 2, "height": 3}}"#;
    check(resp, expected);
}

#[test]
fn test_new_session() {
    let resp = WebDriverResponse::NewSession(NewSessionResponse::new(
        "test".into(),
        JsonValue::Obj(vec![]),
    ));
    let expected = r#"{"value": {"sessionId": "test", "capabilities": {}}}"#;
    check(resp, expected);
}

#[test]
fn test_timeouts() {
    let resp = WebDriverResponse::Timeouts(TimeoutsResponse::new(1, 2, 3));
    let expected = r#"{"value": {"script": 1, "pageLoad": 2, "implicit": 3}}"#;
    check(resp, expected);
}

#[test]
fn test_value() {
    let value = JsonValue::Obj(vec![JsonField {
        key: "example".into(),
        val: JsonValue::Arr(vec![JsonValue::Str("test".into())]),
    }]);
    let resp = WebDriverResponse::Generic(ValueResponse::new(value));
    let expected = r#"{"value": {"example": ["test"]}}"#;
    check(resp, expected);
}

#[test]
fn test_delete_session() {
    let resp = WebDriverResponse::DeleteSession;
    assert_eq!(resp.to_json_string(), "{}");
}

#[test]
fn test_void() {
    let resp = WebDriverResponse::Void;
    assert_eq!(resp.to_json_string(), "{}");
}

#[test]
fn test_cookie_list_not_double_wrapped() {
    let resp = WebDriverResponse::Cookie(CookieResponse::new(vec![]));
    let actual: serde_json::Value = serde_json::from_str(&resp.to_json_string()).unwrap();
    let obj = actual.as_object().unwrap();
    assert_eq!(obj.len(), 1);
    assert!(obj.get("value").unwrap().is_array());
}
