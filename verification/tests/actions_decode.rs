use webdriver::actions::{
    ActionSequence, ActionsType, PointerActionItem, PointerAction, PointerDownAction,
    PointerUpAction, PointerMoveAction, PointerOrigin, PointerType, PointerActionParameters,
    KeyActionItem, KeyAction, KeyUpAction, KeyDownAction, NullActionItem, GeneralAction,
    PauseAction, validate_key_value,
};
use webdriver::command::{
    WebDriverMessage, WebDriverCommand, Route, Captures, VoidWebDriverExtensionRoute,
    ActionsParameters,
};
use webdriver::common::WebElement;
use webdriver::error::{ErrorStatus, WebDriverError};

/// Decodes a perform-actions body holding one sequence, through the
/// dispatcher, and hands that sequence back.
fn decode_one(body: &str) -> Result<ActionSequence, WebDriverError> {
    let caps = Captures::new();
    match WebDriverMessage::<VoidWebDriverExtensionRoute>::from_http(
        Route::PerformActions,
        &caps,
        body,
        true,
    ) {
        Ok(msg) => match msg.command {
            WebDriverCommand::PerformActions(ActionsParameters { mut actions }) => {
                Ok(actions.remove(0))
            },
            _ => panic!("wrong command"),
        },
        Err(e) => Err(e),
    }
}

fn decode_err(body: &str) -> WebDriverError {
    match decode_one(body) {
        Err(e) => e,
        Ok(_) => panic!("expected an error"),
    }
}

#[test]
fn pointer_sequence_without_parameters_defaults_to_mouse() {
    let seq = decode_one(
        r#"{"actions": [{"type": "pointer", "actions": [
            {"type": "pointerDown", "button": 0},
            {"type": "pointerMove", "x": 5, "y": 10, "origin": "pointer"},
            {"type": "pointerUp", "button": 0},
            {"type": "pointerCancel"}
        ]}]}"#,
    )
    .unwrap();
    let expected = ActionSequence {
        id: None,
        actions: ActionsType::Pointer {
            parameters: PointerActionParameters { pointer_type: PointerType::Mouse },
            actions: vec![
                PointerActionItem::Pointer(PointerAction::Down(PointerDownAction { button: 0 })),
                PointerActionItem::Pointer(PointerAction::Move(PointerMoveAction {
                    duration: None,
                    origin: PointerOrigin::Pointer,
                    x: Some(5),
                    y: Some(10),
                })),
                PointerActionItem::Pointer(PointerAction::Up(PointerUpAction { button: 0 })),
                PointerActionItem::Pointer(PointerAction::Cancel),
            ],
        },
    };
    assert_eq!(seq, expected);
}

#[test]
fn pointer_move_element_origin() {
    let seq = decode_one(
        r#"{"actions": [{"type": "pointer", "actions": [
            {"type": "pointerMove", "x": 5, "y": 10,
             "origin": {"element-6066-11e4-a52e-4f735466cecf": "elem"}}
        ]}]}"#,
    )
    .unwrap();
    match seq.actions {
        ActionsType::Pointer { actions, .. } => match &actions[0] {
            PointerActionItem::Pointer(PointerAction::Move(m)) => {
                assert_eq!(m.origin, PointerOrigin::Element(WebElement::new("elem".into())));
            },
            other => panic!("unexpected item: {:?}", other),
        },
        other => panic!("unexpected actions: {:?}", other),
    }
}

#[test]
fn key_down_empty_value_fails() {
    let err = decode_err(
        r#"{"actions": [{"type": "key", "actions": [{"type": "keyDown", "value": ""}]}]}"#,
    );
    assert_eq!(err.error, ErrorStatus::InvalidArgument);
    assert_eq!(err.message, "Parameter 'value' was an empty string");
}

#[test]
fn key_down_multiple_characters_fails() {
    let err = decode_err(
        r#"{"actions": [{"type": "key", "actions": [{"type": "keyDown", "value": "ab"}]}]}"#,
    );
    assert_eq!(err.error, ErrorStatus::InvalidArgument);
    assert_eq!(err.message, "Parameter 'value' contained multiple characters");
}

#[test]
fn validate_key_value_accepts_one_character() {
    assert_eq!(validate_key_value("a").unwrap(), 'a');
    assert!(validate_key_value("").is_err());
    assert!(validate_key_value("ab").is_err());
}

#[test]
fn unknown_sequence_type_fails() {
    let err = decode_err(r#"{"actions": [{"type": "gamepad", "actions": []}]}"#);
    assert_eq!(err.error, ErrorStatus::InvalidArgument);
    assert_eq!(err.message, "Unknown action sequence type gamepad");
}

#[test]
fn key_item_in_none_sequence_fails() {
    let err = decode_err(
        r#"{"actions": [{"type": "none", "actions": [{"type": "keyDown", "value": "a"}]}]}"#,
    );
    assert_eq!(err.error, ErrorStatus::InvalidArgument);
    assert_eq!(err.message, "Invalid action type keyDown");
}

#[test]
fn pause_is_legal_in_every_sequence_kind() {
    for kind in ["none", "key", "pointer"] {
        let body = format!(
            r#"{{"actions": [{{"type": "{}", "actions": [{{"type": "pause", "duration": 15}}]}}]}}"#,
            kind
        );
        assert!(decode_one(&body).is_ok());
    }
}

#[test]
fn sequence_round_trips_through_encode_and_decode() {
    let seqs = vec![
        ActionSequence {
            id: Some("dev".into()),
            actions: ActionsType::Null {
                actions: vec![NullActionItem::General(GeneralAction::Pause(PauseAction {
                    duration: 7,
                }))],
            },
        },
        ActionSequence {
            id: None,
            actions: ActionsType::Key {
                actions: vec![
                    KeyActionItem::Key(KeyAction::Down(KeyDownAction { value: 'x' })),
                    KeyActionItem::Key(KeyAction::Up(KeyUpAction { value: 'x' })),
                    KeyActionItem::General(GeneralAction::Pause(PauseAction { duration: 1 })),
                ],
            },
        },
        ActionSequence {
            id: Some("mouse".into()),
            actions: ActionsType::Pointer {
                parameters: PointerActionParameters { pointer_type: PointerType::Pen },
                actions: vec![
                    PointerActionItem::Pointer(PointerAction::Down(PointerDownAction {
                        button: 2,
                    })),
                    PointerActionItem::Pointer(PointerAction::Move(PointerMoveAction {
                        duration: Some(50),
                        origin: PointerOrigin::Element(WebElement::new("elem".into())),
                        x: Some(-3),
                        y: None,
                    })),
                    PointerActionItem::Pointer(PointerAction::Up(PointerUpAction { button: 2 })),
                ],
            },
        },
    ];
    for seq in seqs {
        let encoded = seq.to_json();
        let decoded = ActionSequence::from_json(&encoded).unwrap();
        assert_eq!(decoded, seq);
    }
}

#[test]
fn pointer_parameters_pen_round_trip() {
    let seq = decode_one(
        r#"{"actions": [{"type": "pointer", "parameters": {"pointerType": "pen"},
            "actions": []}]}"#,
    )
    .unwrap();
    match seq.actions {
        ActionsType::Pointer { parameters, .. } => {
            assert_eq!(parameters.pointer_type, PointerType::Pen);
        },
        other => panic!("unexpected actions: {:?}", other),
    }
}

#[test]
fn negative_duration_fails() {
    let err = decode_err(
        r#"{"actions": [{"type": "none", "actions": [{"type": "pause", "duration": -1}]}]}"#,
    );
    assert_eq!(err.error, ErrorStatus::InvalidArgument);
    assert_eq!(err.message, "Parameter duration was not a non-negative integer");
}

#[test]
fn second_bad_sequence_reports_its_own_error() {
    let err = decode_err(
        r#"{"actions": [
            {"type": "none", "actions": []},
            {"type": "none", "actions": [{"type": "pause"}]}
        ]}"#,
    );
    assert_eq!(err.message, "Missing duration parameter");
}
