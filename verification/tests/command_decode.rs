use webdriver::command::{
    WebDriverMessage, WebDriverCommand, Route, Captures, VoidWebDriverExtensionRoute,
    WindowRectParameters, SwitchToFrameParameters, TimeoutsParameters, ActionsParameters,
    NewSessionParameters,
};
use webdriver::common::{FrameId, LocatorStrategy, WebElement, Date};
use webdriver::error::{ErrorStatus, WebDriverError};
use webdriver::json::{JsonValue, JsonField};

type Msg = WebDriverMessage<VoidWebDriverExtensionRoute>;
type Rt = Route<VoidWebDriverExtensionRoute>;

fn no_captures() -> Captures {
    Captures::new()
}

fn expect_err(r: Result<Msg, WebDriverError>) -> WebDriverError {
    match r {
        Err(e) => e,
        Ok(_) => panic!("expected an error"),
    }
}

#[test]
fn get_route_decodes_url() {
    let caps = no_captures();
    let msg = Msg::from_http(Rt::Get, &caps, r#"{"url": "https://example.test/"}"#, true)
        .unwrap();
    assert_eq!(msg.session_id, None);
    match msg.command {
        WebDriverCommand::Get(p) => assert_eq!(p.url, "https://example.test/"),
        _ => panic!("wrong command"),
    }
}

#[test]
fn session_id_is_taken_from_captures() {
    let mut caps = Captures::new();
    caps.insert("sessionId", "abc123");
    let msg = Msg::from_http(Rt::GetTitle, &caps, "", false).unwrap();
    assert_eq!(msg.session_id, Some("abc123".to_string()));
    assert!(matches!(msg.command, WebDriverCommand::GetTitle));
}

#[test]
fn missing_url_error_mentions_url() {
    let caps = no_captures();
    let err = expect_err(Msg::from_http(Rt::Get, &caps, "{}", true));
    assert_eq!(err.error, ErrorStatus::InvalidArgument);
    assert!(err.message.contains("url"));
    assert_eq!(err.message, "Missing url parameter");
}

#[test]
fn window_rect_decodes_all_four_fields() {
    let caps = no_captures();
    let msg = Msg::from_http(
        Rt::SetWindowRect,
        &caps,
        r#"{"x":0,"y":1,"width":2,"height":3}"#,
        true,
    )
    .unwrap();
    match msg.command {
        WebDriverCommand::SetWindowRect(p) => {
            assert_eq!(
                p,
                WindowRectParameters {
                    x: Some(0),
                    y: Some(1),
                    width: Some(2),
                    height: Some(3),
                }
            );
        },
        _ => panic!("wrong command"),
    }
}

fn decode_window_rect(body: &str) -> WindowRectParameters {
    let caps = no_captures();
    match Msg::from_http(Rt::SetWindowRect, &caps, body, true).unwrap().command {
        WebDriverCommand::SetWindowRect(p) => p,
        _ => panic!("wrong command"),
    }
}

#[test]
fn window_rect_null_and_absent_both_decode_to_none() {
    let p = decode_window_rect(r#"{"x":0,"y":null,"width":2,"height":3}"#);
    assert_eq!(p.y, None);
    let q = decode_window_rect(r#"{"x":0,"width":2,"height":3}"#);
    assert_eq!(q.y, None);
    assert_eq!(p, q);
}

fn decode_frame(body: &str) -> Result<SwitchToFrameParameters, WebDriverError> {
    let caps = no_captures();
    match Msg::from_http(Rt::SwitchToFrame, &caps, body, true) {
        Ok(msg) => match msg.command {
            WebDriverCommand::SwitchToFrame(p) => Ok(p),
            _ => panic!("wrong command"),
        },
        Err(e) => Err(e),
    }
}

#[test]
fn frame_id_out_of_range_is_no_such_frame() {
    let err = decode_frame(r#"{"id": 70000}"#).unwrap_err();
    assert_eq!(err.error, ErrorStatus::NoSuchFrame);
}

#[test]
fn frame_id_in_range_decodes_short() {
    let p = decode_frame(r#"{"id": 7}"#).unwrap();
    assert_eq!(p.id, Some(FrameId::Short(7)));
    let q = decode_frame(r#"{"id": null}"#).unwrap();
    assert_eq!(q.id, None);
}

#[test]
fn frame_id_element_decodes() {
    let p = decode_frame(r#"{"id": {"element-6066-11e4-a52e-4f735466cecf": "frame-el"}}"#)
        .unwrap();
    assert_eq!(p.id, Some(FrameId::Element(WebElement::new("frame-el".into()))));
}

#[test]
fn body_syntax_error_carries_position_diagnostic() {
    let caps = no_captures();
    let err = expect_err(Msg::from_http(Rt::Get, &caps, "{\"url\": nope}", true));
    assert_eq!(err.error, ErrorStatus::InvalidArgument);
    assert_eq!(err.message, "Failed to decode request as JSON: {\"url\": nope}");
    assert_eq!(err.stack, Some("Syntax error at :1:10".to_string()));
}

#[test]
fn non_object_body_is_rejected() {
    let caps = no_captures();
    let err = expect_err(Msg::from_http(Rt::Get, &caps, "[1, 2]", true));
    assert_eq!(err.error, ErrorStatus::InvalidArgument);
    assert_eq!(err.message, "Body was not a JSON Object");
    assert_eq!(err.stack, None);
}

#[test]
fn body_is_ignored_when_not_required() {
    let caps = no_captures();
    let msg = Msg::from_http(Rt::GoBack, &caps, "not json at all", false).unwrap();
    assert!(matches!(msg.command, WebDriverCommand::GoBack));
}

#[test]
fn element_route_requires_element_id() {
    let caps = no_captures();
    let err = expect_err(Msg::from_http(Rt::ElementClick, &caps, "", false));
    assert_eq!(err.error, ErrorStatus::InvalidArgument);
    assert_eq!(err.message, "Missing elementId parameter");

    let mut with_el = Captures::new();
    with_el.insert("elementId", "el-1");
    let msg = Msg::from_http(Rt::ElementClick, &with_el, "", false).unwrap();
    match msg.command {
        WebDriverCommand::ElementClick(w) => assert_eq!(w.id, "el-1"),
        _ => panic!("wrong command"),
    }
}

#[test]
fn css_value_route_requires_property_name() {
    let mut caps = Captures::new();
    caps.insert("elementId", "el-1");
    let err = expect_err(Msg::from_http(Rt::GetCSSValue, &caps, "", false));
    assert_eq!(err.message, "Missing propertyName parameter");
    caps.insert("propertyName", "color");
    let msg = Msg::from_http(Rt::GetCSSValue, &caps, "", false).unwrap();
    match msg.command {
        WebDriverCommand::GetCSSValue(w, name) => {
            assert_eq!(w.id, "el-1");
            assert_eq!(name, "color");
        },
        _ => panic!("wrong command"),
    }
}

#[test]
fn named_cookie_route_quotes_name_in_error() {
    let caps = no_captures();
    let err = expect_err(Msg::from_http(Rt::GetNamedCookie, &caps, "", false));
    assert_eq!(err.message, "Missing 'name' parameter");
    let err2 = expect_err(Msg::from_http(Rt::DeleteCookie, &caps, "", false));
    assert_eq!(err2.message, "Missing name parameter");
}

#[test]
fn locator_parameters_decode_and_reject_unknown_strategy() {
    let caps = no_captures();
    let body = r#"{"using": "css selector", "value": "div.nav"}"#;
    let msg = Msg::from_http(Rt::FindElement, &caps, body, true).unwrap();
    match msg.command {
        WebDriverCommand::FindElement(p) => {
            assert_eq!(p.using, LocatorStrategy::CSSSelector);
            assert_eq!(p.value, "div.nav");
        },
        _ => panic!("wrong command"),
    }

    let bad = r#"{"using": "magic", "value": "div.nav"}"#;
    let err = expect_err(Msg::from_http(Rt::FindElements, &caps, bad, true));
    assert_eq!(err.error, ErrorStatus::InvalidArgument);
    assert_eq!(err.message, "Unknown locator strategy magic");
}

#[test]
fn locator_strategy_rejects_non_string() {
    let err = LocatorStrategy::from_json(&JsonValue::Num(17)).unwrap_err();
    assert_eq!(err.message, "Cound not convert strategy to string");
}

#[test]
fn add_cookie_reads_nested_cookie_object() {
    let caps = no_captures();
    let body = r#"{"cookie": {"name": "k", "value": "v", "expiry": 1500000000, "secure": true}}"#;
    let msg = Msg::from_http(Rt::AddCookie, &caps, body, true).unwrap();
    match msg.command {
        WebDriverCommand::AddCookie(c) => {
            assert_eq!(c.name, "k");
            assert_eq!(c.value, "v");
            assert_eq!(c.path, None);
            assert_eq!(c.domain, None);
            assert_eq!(c.expiry, Some(Date::new(1500000000)));
            assert!(c.secure);
            assert!(!c.http_only);
        },
        _ => panic!("wrong command"),
    }
}

#[test]
fn add_cookie_requires_cookie_key() {
    let caps = no_captures();
    let err = expect_err(Msg::from_http(Rt::AddCookie, &caps, r#"{"name": "k"}"#, true));
    assert_eq!(err.message, "Missing cookie parameter");
}

#[test]
fn timeouts_decode_with_defaults() {
    let caps = no_captures();
    let msg = Msg::from_http(Rt::SetTimeouts, &caps, r#"{"pageLoad": 30000}"#, true).unwrap();
    match msg.command {
        WebDriverCommand::SetTimeouts(p) => {
            assert_eq!(
                p,
                TimeoutsParameters { script: None, page_load: Some(30000), implicit: None }
            );
        },
        _ => panic!("wrong command"),
    }
    let err = expect_err(Msg::from_http(Rt::SetTimeouts, &caps, r#"{"script": "soon"}"#, true));
    assert_eq!(err.message, "Parameter script was not a non-negative integer");
}

#[test]
fn send_keys_reads_text_field_and_encodes_as_value() {
    let caps = no_captures();
    let msg = Msg::from_http(Rt::SendAlertText, &caps, r#"{"text": "hello"}"#, true).unwrap();
    let p = match msg.command {
        WebDriverCommand::SendAlertText(p) => p,
        _ => panic!("wrong command"),
    };
    assert_eq!(p.text, "hello");
    let encoded = p.to_json();
    assert_eq!(
        encoded,
        JsonValue::Obj(vec![JsonField { key: "value".into(), val: JsonValue::Str("hello".into()) }])
    );
}

#[test]
fn script_arguments_pass_through() {
    let caps = no_captures();
    let body = r#"{"script": "return 1;", "args": [1, "two", null]}"#;
    let msg = Msg::from_http(Rt::ExecuteScript, &caps, body, true).unwrap();
    let p = match msg.command {
        WebDriverCommand::ExecuteScript(p) => p,
        _ => panic!("wrong command"),
    };
    assert_eq!(p.script, "return 1;");
    assert_eq!(
        p.args,
        Some(vec![JsonValue::Num(1), JsonValue::Str("two".into()), JsonValue::Null])
    );
}

#[test]
fn perform_actions_decodes_each_sequence() {
    let caps = no_captures();
    let body = r#"{"actions": [{"type": "none", "actions": [{"type": "pause", "duration": 3}]}]}"#;
    let msg = Msg::from_http(Rt::PerformActions, &caps, body, true).unwrap();
    match msg.command {
        WebDriverCommand::PerformActions(ActionsParameters { actions }) => {
            assert_eq!(actions.len(), 1);
            assert_eq!(actions[0].id, None);
        },
        _ => panic!("wrong command"),
    }
}

#[test]
fn new_session_spec_and_legacy() {
    let caps = no_captures();
    let spec_body = r#"{"capabilities": {"alwaysMatch": {"browserName": "firefox"}}}"#;
    let msg = Msg::from_http(Rt::NewSession, &caps, spec_body, true).unwrap();
    match msg.command {
        WebDriverCommand::NewSession(NewSessionParameters::Spec(p)) => {
            assert_eq!(p.always_match.len(), 1);
            assert_eq!(p.always_match[0].key, "browserName");
            assert_eq!(p.first_match.len(), 0);
        },
        _ => panic!("wrong command"),
    }
    let legacy_body = r#"{"desiredCapabilities": {"browserName": "firefox"}}"#;
    let msg2 = Msg::from_http(Rt::NewSession, &caps, legacy_body, true).unwrap();
    match msg2.command {
        WebDriverCommand::NewSession(NewSessionParameters::Legacy(p)) => {
            assert_eq!(p.desired.len(), 1);
            assert_eq!(p.required.len(), 0);
        },
        _ => panic!("wrong command"),
    }
}

#[test]
fn message_encodes_parameters_or_empty_object() {
    let caps = no_captures();
    let msg = Msg::from_http(Rt::Get, &caps, r#"{"url": "https://example.test/"}"#, true)
        .unwrap();
    let encoded = msg.to_json();
    let expected = JsonValue::Obj(vec![JsonField {
        key: "parameters".into(),
        val: JsonValue::Obj(vec![JsonField {
            key: "url".into(),
            val: JsonValue::Str("https://example.test/".into()),
        }]),
    }]);
    assert_eq!(encoded, expected);

    let bare = Msg::from_http(Rt::GetTitle, &caps, "", false).unwrap();
    assert_eq!(bare.to_json(), JsonValue::Obj(vec![]));
}

#[test]
fn get_window_position_and_size_map_to_window_rect() {
    let caps = no_captures();
    for route in [Rt::GetWindowRect, Rt::GetWindowPosition, Rt::GetWindowSize] {
        let msg = Msg::from_http(route, &caps, "", false).unwrap();
        assert!(matches!(msg.command, WebDriverCommand::GetWindowRect));
    }
}

#[test]
fn get_parameters_rejects_non_string_url() {
    let caps = no_captures();
    let err = expect_err(Msg::from_http(Rt::Get, &caps, r#"{"url": 17}"#, true));
    assert_eq!(err.message, "Parameter url was not a string");
}

#[test]
fn void_extension_route_yields_unknown_error() {
    let caps = no_captures();
    let err = expect_err(Msg::from_http(
        Rt::Extension(VoidWebDriverExtensionRoute),
        &caps,
        "",
        false,
    ));
    assert_eq!(err.error, ErrorStatus::UnknownError);
    assert_eq!(err.message, "No extensions implemented");
}

#[test]
fn add_cookie_message_form_carries_every_field() {
    let caps = no_captures();
    let body = r#"{"cookie": {"name": "k", "value": "v", "path": "/", "expiry": 7}}"#;
    let msg = Msg::from_http(Rt::AddCookie, &caps, body, true).unwrap();
    let encoded = msg.to_json();
    let expected = JsonValue::Obj(vec![JsonField {
        key: "parameters".into(),
        val: JsonValue::Obj(vec![
            JsonField { key: "name".into(), val: JsonValue::Str("k".into()) },
            JsonField { key: "value".into(), val: JsonValue::Str("v".into()) },
            JsonField { key: "path".into(), val: JsonValue::Str("/".into()) },
            JsonField { key: "domain".into(), val: JsonValue::Null },
            JsonField { key: "expiry".into(), val: JsonValue::Num(7) },
            JsonField { key: "secure".into(), val: JsonValue::Bool(false) },
            JsonField { key: "httpOnly".into(), val: JsonValue::Bool(false) },
        ]),
    }]);
    assert_eq!(encoded, expected);
}

#[test]
fn take_element_screenshot_element_is_optional() {
    let caps = no_captures();
    let body = r#"{"element": {"element-6066-11e4-a52e-4f735466cecf": "shot"}}"#;
    let msg = Msg::from_http(Rt::TakeElementScreenshot, &caps, body, true).unwrap();
    match msg.command {
        WebDriverCommand::TakeElementScreenshot(p) => {
            assert_eq!(p.element, Some(WebElement::new("shot".into())));
        },
        _ => panic!("wrong command"),
    }
    let msg2 = Msg::from_http(Rt::TakeElementScreenshot, &caps, r#"{"element": null}"#, true)
        .unwrap();
    match msg2.command {
        WebDriverCommand::TakeElementScreenshot(p) => assert_eq!(p.element, None),
        _ => panic!("wrong command"),
    }
}

#[test]
fn non_integer_script_argument_is_carried_as_its_text() {
    let caps = no_captures();
    let body = r#"{"script": "return x;", "args": [1.5]}"#;
    let msg = Msg::from_http(Rt::ExecuteScript, &caps, body, true).unwrap();
    match msg.command {
        WebDriverCommand::ExecuteScript(p) => {
            assert_eq!(p.args, Some(vec![JsonValue::Float("1.5".into())]));
        },
        _ => panic!("wrong command"),
    }
}
