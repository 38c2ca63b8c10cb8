//! The "perform actions" payload: one sequence per input device, a tagged
//! structure whose item set depends on the sequence's declared type. Decoding
//! validates each item against that set; encoding is the structural inverse,
//! and decoding an encoded sequence gives the sequence back.

use vstd::prelude::*;
use vstd::string::*;
use crate::json::{
    JsonValue, JsonData, JsonField, json_get, str_eq, char_to_string, opt_u64_entry,
    opt_i64_entry,
};
use crate::error::{
    ErrorStatus, ErrorData, WebDriverError, WebDriverResult, invalid_arg, missing_field_msg,
    wrong_type_msg, invalid_error, missing_field_error, wrong_type_error,
};
use crate::common::{WebElement, web_element_of, web_element_json};
use crate::fields::{
    req_string_of, opt_string_of, req_u64_of, opt_u64_of, opt_i64_of, decode_req_string,
    decode_opt_string, decode_req_u64, decode_opt_u64, decode_opt_i64,
};

verus! {

/// A pause for a number of milliseconds; legal in every sequence kind.
#[derive(Debug, Clone, Copy, PartialEq, Eq, Structural)]
pub struct PauseAction {
    pub duration: u64,
}

/// The actions every sequence kind accepts.
#[derive(Debug, Clone, Copy, PartialEq, Eq, Structural)]
pub enum GeneralAction {
    Pause(PauseAction),
}

/// A key released: exactly one Unicode scalar value.
#[derive(Debug, Clone, Copy, PartialEq, Eq, Structural)]
pub struct KeyUpAction {
    pub value: char,
}

/// A key pressed: exactly one Unicode scalar value.
#[derive(Debug, Clone, Copy, PartialEq, Eq, Structural)]
pub struct KeyDownAction {
    pub value: char,
}

/// A key event.
#[derive(Debug, Clone, Copy, PartialEq, Eq, Structural)]
pub enum KeyAction {
    Up(KeyUpAction),
    Down(KeyDownAction),
}

/// An item of a `none`-typed sequence.
#[derive(Debug, Clone, Copy, PartialEq, Eq, Structural)]
pub enum NullActionItem {
    General(GeneralAction),
}

/// An item of a `key`-typed sequence.
#[derive(Debug, Clone, Copy, PartialEq, Eq, Structural)]
pub enum KeyActionItem {
    General(GeneralAction),
    Key(KeyAction),
}

/// The kind of pointing device a pointer sequence simulates.
#[derive(Debug, Clone, Copy, PartialEq, Eq, Structural)]
pub enum PointerType {
    Mouse,
    Pen,
    Touch,
}

impl Default for PointerType {
    fn default() -> (r: PointerType)
        ensures
            r == PointerType::Mouse,
    {
        PointerType::Mouse
    }
}

/// The parameters block of a pointer sequence.
#[derive(Debug, Clone, Copy, PartialEq, Eq, Structural)]
pub struct PointerActionParameters {
    pub pointer_type: PointerType,
}

impl Default for PointerActionParameters {
    fn default() -> (r: PointerActionParameters)
        ensures
            (r == PointerActionParameters { pointer_type: PointerType::Mouse }),
    {
        PointerActionParameters { pointer_type: PointerType::Mouse }
    }
}

/// What a pointer move is relative to.
#[derive(Debug, Clone, PartialEq)]
pub enum PointerOrigin {
    Viewport,
    Pointer,
    Element(WebElement),
}

impl Default for PointerOrigin {
    fn default() -> (r: PointerOrigin)
        ensures
            r == PointerOrigin::Viewport,
    {
        PointerOrigin::Viewport
    }
}

/// The model of a `PointerOrigin`.
pub enum PointerOriginData {
    Viewport,
    Pointer,
    Element { id: Seq<char> },
}

impl View for PointerOrigin {
    type V = PointerOriginData;

    open spec fn view(&self) -> PointerOriginData {
        match self {
            PointerOrigin::Viewport => PointerOriginData::Viewport,
            PointerOrigin::Pointer => PointerOriginData::Pointer,
            PointerOrigin::Element(w) => PointerOriginData::Element { id: w@ },
        }
    }
}

/// A pointer button released.
#[derive(Debug, Clone, Copy, PartialEq, Eq, Structural)]
pub struct PointerUpAction {
    pub button: u64,
}

/// A pointer button pressed.
#[derive(Debug, Clone, Copy, PartialEq, Eq, Structural)]
pub struct PointerDownAction {
    pub button: u64,
}

/// A pointer move: optional duration, optional signed coordinates, and an
/// origin that defaults to the viewport.
#[derive(Debug, Clone, PartialEq)]
pub struct PointerMoveAction {
    pub duration: Option<u64>,
    pub origin: PointerOrigin,
    pub x: Option<i64>,
    pub y: Option<i64>,
}

/// The model of a `PointerMoveAction`.
pub struct PointerMoveData {
    pub duration: Option<u64>,
    pub origin: PointerOriginData,
    pub x: Option<i64>,
    pub y: Option<i64>,
}

impl View for PointerMoveAction {
    type V = PointerMoveData;

    open spec fn view(&self) -> PointerMoveData {
        PointerMoveData { duration: self.duration, origin: self.origin@, x: self.x, y: self.y }
    }
}

/// A pointer event.
#[derive(Debug, Clone, PartialEq)]
pub enum PointerAction {
    Up(PointerUpAction),
    Down(PointerDownAction),
    Move(PointerMoveAction),
    Cancel,
}

/// The model of a `PointerAction`.
pub enum PointerActionData {
    Up { button: u64 },
    Down { button: u64 },
    Move { m: PointerMoveData },
    Cancel,
}

impl View for PointerAction {
    type V = PointerActionData;

    open spec fn view(&self) -> PointerActionData {
        match self {
            PointerAction::Up(a) => PointerActionData::Up { button: a.button },
            PointerAction::Down(a) => PointerActionData::Down { button: a.button },
            PointerAction::Move(a) => PointerActionData::Move { m: a@ },
            PointerAction::Cancel => PointerActionData::Cancel,
        }
    }
}

/// An item of a `pointer`-typed sequence.
#[derive(Debug, Clone, PartialEq)]
pub enum PointerActionItem {
    General(GeneralAction),
    Pointer(PointerAction),
}

/// The model of a `PointerActionItem`.
pub enum PointerActionItemData {
    General { g: GeneralAction },
    Pointer { p: PointerActionData },
}

impl View for PointerActionItem {
    type V = PointerActionItemData;

    open spec fn view(&self) -> PointerActionItemData {
        match self {
            PointerActionItem::General(g) => PointerActionItemData::General { g: *g },
            PointerActionItem::Pointer(p) => PointerActionItemData::Pointer { p: p@ },
        }
    }
}

/// The models of a list of pointer items.
pub open spec fn pointer_items_model(items: Seq<PointerActionItem>) -> Seq<PointerActionItemData> {
    Seq::new(items.len(), |i: int| items[i]@)
}

pub broadcast proof fn lemma_pointer_items_model_len(items: Seq<PointerActionItem>)
    ensures
        #[trigger] pointer_items_model(items).len() == items.len(),
{
}

pub broadcast proof fn lemma_pointer_items_model_index(items: Seq<PointerActionItem>, i: int)
    requires
        0 <= i < items.len(),
    ensures
        #[trigger] pointer_items_model(items)[i] == items[i]@,
{
}

/// A sequence's items, tagged by the sequence's declared type; every item
/// must belong to the set the type allows.
#[derive(Debug, PartialEq)]
pub enum ActionsType {
    Null { actions: Vec<NullActionItem> },
    Key { actions: Vec<KeyActionItem> },
    Pointer { parameters: PointerActionParameters, actions: Vec<PointerActionItem> },
}

/// The model of an `ActionsType`.
pub enum ActionsTypeData {
    Null { actions: Seq<NullActionItem> },
    Key { actions: Seq<KeyActionItem> },
    Pointer { parameters: PointerActionParameters, actions: Seq<PointerActionItemData> },
}

impl View for ActionsType {
    type V = ActionsTypeData;

    open spec fn view(&self) -> ActionsTypeData {
        match self {
            ActionsType::Null { actions } => ActionsTypeData::Null { actions: actions@ },
            ActionsType::Key { actions } => ActionsTypeData::Key { actions: actions@ },
            ActionsType::Pointer { parameters, actions } => ActionsTypeData::Pointer {
                parameters: *parameters,
                actions: pointer_items_model(actions@),
            },
        }
    }
}

/// One input device's ordered list of simulated events.
#[derive(Debug, PartialEq)]
pub struct ActionSequence {
    pub id: Option<String>,
    pub actions: ActionsType,
}

/// The model of an `ActionSequence`.
pub struct ActionSequenceData {
    pub id: Option<Seq<char>>,
    pub actions: ActionsTypeData,
}

impl View for ActionSequence {
    type V = ActionSequenceData;

    open spec fn view(&self) -> ActionSequenceData {
        ActionSequenceData {
            id: match self.id {
                Option::Some(s) => Some(s@),
                Option::None => None,
            },
            actions: self.actions@,
        }
    }
}

/// The one Unicode scalar value of a key action's `value` string; an empty
/// and a many-character string are distinct, explicit errors.
pub open spec fn key_value_of(s: Seq<char>) -> Result<char, ErrorData> {
    if s.len() == 0 {
        Err(invalid_arg("Parameter 'value' was an empty string"@))
    } else if s.len() > 1 {
        Err(invalid_arg("Parameter 'value' contained multiple characters"@))
    } else {
        Ok(s[0])
    }
}

/// The pointer-type string of a wire parameters block.
pub open spec fn pointer_type_wire(t: PointerType) -> Seq<char> {
    match t {
        PointerType::Mouse => "mouse"@,
        PointerType::Pen => "pen"@,
        PointerType::Touch => "touch"@,
    }
}

/// The pointer parameters a wire `parameters` field names; an absent block
/// and an absent `pointerType` both default to a mouse.
pub open spec fn pointer_parameters_of(o: Option<JsonData>) -> Result<
    PointerActionParameters,
    ErrorData,
> {
    match o {
        Option::None => Ok(PointerActionParameters { pointer_type: PointerType::Mouse }),
        Option::Some(p) => if !(p is Obj) {
            Err(invalid_arg(wrong_type_msg("parameters"@, "object"@)))
        } else {
            match json_get(p, "pointerType"@) {
                Option::None => Ok(PointerActionParameters { pointer_type: PointerType::Mouse }),
                Option::Some(JsonData::Str { s }) => if s == "mouse"@ {
                    Ok(PointerActionParameters { pointer_type: PointerType::Mouse })
                } else if s == "pen"@ {
                    Ok(PointerActionParameters { pointer_type: PointerType::Pen })
                } else if s == "touch"@ {
                    Ok(PointerActionParameters { pointer_type: PointerType::Touch })
                } else {
                    Err(invalid_arg("Unknown pointerType "@ + s))
                },
                Option::Some(_) => Err(invalid_arg(wrong_type_msg("pointerType"@, "string"@))),
            }
        },
    }
}

/// The pointer origin a wire `origin` field names; absence and `null` are
/// the viewport, and any object is attempted as an element reference.
pub open spec fn pointer_origin_of(o: Option<JsonData>) -> Result<PointerOriginData, ErrorData> {
    match o {
        Option::None => Ok(PointerOriginData::Viewport),
        Option::Some(JsonData::Null) => Ok(PointerOriginData::Viewport),
        Option::Some(JsonData::Str { s }) => if s == "viewport"@ {
            Ok(PointerOriginData::Viewport)
        } else if s == "pointer"@ {
            Ok(PointerOriginData::Pointer)
        } else {
            Err(invalid_arg("Unknown pointer origin "@ + s))
        },
        Option::Some(JsonData::Obj { fields }) => match web_element_of(
            JsonData::Obj { fields },
        ) {
            Ok(id) => Ok(PointerOriginData::Element { id }),
            Err(e) => Err(e),
        },
        Option::Some(_) => Err(invalid_arg("Invalid pointer origin"@)),
    }
}

/// The pause item `d` holds.
pub open spec fn pause_of(d: JsonData) -> Result<PauseAction, ErrorData> {
    match req_u64_of(d, "duration"@) {
        Ok(duration) => Ok(PauseAction { duration }),
        Err(e) => Err(e),
    }
}

/// The key event `d` holds, given its already-read type tag.
pub open spec fn key_action_of(d: JsonData, t: Seq<char>) -> Result<KeyAction, ErrorData> {
    match req_string_of(d, "value"@) {
        Err(e) => Err(e),
        Ok(s) => match key_value_of(s) {
            Err(e) => Err(e),
            Ok(value) => if t == "keyUp"@ {
                Ok(KeyAction::Up(KeyUpAction { value }))
            } else {
                Ok(KeyAction::Down(KeyDownAction { value }))
            },
        },
    }
}

/// The pointer move `d` holds.
pub open spec fn pointer_move_of(d: JsonData) -> Result<PointerMoveData, ErrorData> {
    match opt_u64_of(d, "duration"@) {
        Err(e) => Err(e),
        Ok(duration) => match pointer_origin_of(json_get(d, "origin"@)) {
            Err(e) => Err(e),
            Ok(origin) => match opt_i64_of(d, "x"@) {
                Err(e) => Err(e),
                Ok(x) => match opt_i64_of(d, "y"@) {
                    Err(e) => Err(e),
                    Ok(y) => Ok(PointerMoveData { duration, origin, x, y }),
                },
            },
        },
    }
}

/// The item of a `none`-typed sequence `d` holds: only a pause is allowed.
pub open spec fn null_item_of(d: JsonData) -> Result<NullActionItem, ErrorData> {
    match req_string_of(d, "type"@) {
        Err(e) => Err(e),
        Ok(t) => if t == "pause"@ {
            match pause_of(d) {
                Ok(p) => Ok(NullActionItem::General(GeneralAction::Pause(p))),
                Err(e) => Err(e),
            }
        } else {
            Err(invalid_arg("Invalid action type "@ + t))
        },
    }
}

/// The item of a `key`-typed sequence `d` holds: a pause or a key event.
pub open spec fn key_item_of(d: JsonData) -> Result<KeyActionItem, ErrorData> {
    match req_string_of(d, "type"@) {
        Err(e) => Err(e),
        Ok(t) => if t == "pause"@ {
            match pause_of(d) {
                Ok(p) => Ok(KeyActionItem::General(GeneralAction::Pause(p))),
                Err(e) => Err(e),
            }
        } else if t == "keyUp"@ || t == "keyDown"@ {
            match key_action_of(d, t) {
                Ok(k) => Ok(KeyActionItem::Key(k)),
                Err(e) => Err(e),
            }
        } else {
            Err(invalid_arg("Invalid action type "@ + t))
        },
    }
}

/// The item of a `pointer`-typed sequence `d` holds: a pause or a pointer
/// event.
pub open spec fn pointer_item_of(d: JsonData) -> Result<PointerActionItemData, ErrorData> {
    match req_string_of(d, "type"@) {
        Err(e) => Err(e),
        Ok(t) => if t == "pause"@ {
            match pause_of(d) {
                Ok(p) => Ok(
                    PointerActionItemData::General { g: GeneralAction::Pause(p) },
                ),
                Err(e) => Err(e),
            }
        } else if t == "pointerUp"@ {
            match req_u64_of(d, "button"@) {
                Ok(button) => Ok(
                    PointerActionItemData::Pointer { p: PointerActionData::Up { button } },
                ),
                Err(e) => Err(e),
            }
        } else if t == "pointerDown"@ {
            match req_u64_of(d, "button"@) {
                Ok(button) => Ok(
                    PointerActionItemData::Pointer { p: PointerActionData::Down { button } },
                ),
                Err(e) => Err(e),
            }
        } else if t == "pointerMove"@ {
            match pointer_move_of(d) {
                Ok(m) => Ok(PointerActionItemData::Pointer { p: PointerActionData::Move { m } }),
                Err(e) => Err(e),
            }
        } else if t == "pointerCancel"@ {
            Ok(PointerActionItemData::Pointer { p: PointerActionData::Cancel })
        } else {
            Err(invalid_arg("Invalid action type "@ + t))
        },
    }
}

/// The items of a `none`-typed sequence, first violated constraint first.
pub open spec fn null_items_of(items: Seq<JsonData>) -> Result<Seq<NullActionItem>, ErrorData>
    decreases items.len(),
{
    if items.len() == 0 {
        Ok(Seq::empty())
    } else {
        match null_items_of(items.drop_last()) {
            Err(e) => Err(e),
            Ok(rest) => match null_item_of(items.last()) {
                Err(e) => Err(e),
                Ok(item) => Ok(rest.push(item)),
            },
        }
    }
}

/// The items of a `key`-typed sequence, first violated constraint first.
pub open spec fn key_items_of(items: Seq<JsonData>) -> Result<Seq<KeyActionItem>, ErrorData>
    decreases items.len(),
{
    if items.len() == 0 {
        Ok(Seq::empty())
    } else {
        match key_items_of(items.drop_last()) {
            Err(e) => Err(e),
            Ok(rest) => match key_item_of(items.last()) {
                Err(e) => Err(e),
                Ok(item) => Ok(rest.push(item)),
            },
        }
    }
}

/// The items of a `pointer`-typed sequence, first violated constraint
/// first.
pub open spec fn pointer_items_of(items: Seq<JsonData>) -> Result<
    Seq<PointerActionItemData>,
    ErrorData,
>
    decreases items.len(),
{
    if items.len() == 0 {
        Ok(Seq::empty())
    } else {
        match pointer_items_of(items.drop_last()) {
            Err(e) => Err(e),
            Ok(rest) => match pointer_item_of(items.last()) {
                Err(e) => Err(e),
                Ok(item) => Ok(rest.push(item)),
            },
        }
    }
}

/// The required `actions` array of a sequence object.
pub open spec fn actions_array_of(d: JsonData) -> Result<Seq<JsonData>, ErrorData> {
    match json_get(d, "actions"@) {
        Option::None => Err(invalid_arg(missing_field_msg("actions"@))),
        Option::Some(JsonData::Arr { items }) => Ok(items),
        Option::Some(_) => Err(invalid_arg(wrong_type_msg("actions"@, "array"@))),
    }
}

/// The decoded `actions` field of a `none`-typed sequence object.
pub open spec fn null_actions_of(d: JsonData) -> Result<Seq<NullActionItem>, ErrorData> {
    match actions_array_of(d) {
        Err(e) => Err(e),
        Ok(items) => null_items_of(items),
    }
}

/// The decoded `actions` field of a `key`-typed sequence object.
pub open spec fn key_actions_of(d: JsonData) -> Result<Seq<KeyActionItem>, ErrorData> {
    match actions_array_of(d) {
        Err(e) => Err(e),
        Ok(items) => key_items_of(items),
    }
}

/// The decoded `actions` field of a `pointer`-typed sequence object.
pub open spec fn pointer_actions_of(d: JsonData) -> Result<Seq<PointerActionItemData>, ErrorData> {
    match actions_array_of(d) {
        Err(e) => Err(e),
        Ok(items) => pointer_items_of(items),
    }
}

/// The action sequence `d` holds: its type tag is read once, the optional
/// id next; a pointer sequence reads its parameters before its items; each
/// item is classified against the set its sequence type allows.
pub open spec fn action_sequence_of(d: JsonData) -> Result<ActionSequenceData, ErrorData> {
    match req_string_of(d, "type"@) {
        Err(e) => Err(e),
        Ok(t) => match opt_string_of(d, "id"@) {
            Err(e) => Err(e),
            Ok(id) => if t == "none"@ {
                match null_actions_of(d) {
                    Err(e) => Err(e),
                    Ok(actions) => Ok(
                        ActionSequenceData { id, actions: ActionsTypeData::Null { actions } },
                    ),
                }
            } else if t == "key"@ {
                match key_actions_of(d) {
                    Err(e) => Err(e),
                    Ok(actions) => Ok(
                        ActionSequenceData { id, actions: ActionsTypeData::Key { actions } },
                    ),
                }
            } else if t == "pointer"@ {
                match pointer_parameters_of(json_get(d, "parameters"@)) {
                    Err(e) => Err(e),
                    Ok(parameters) => match pointer_actions_of(d) {
                        Err(e) => Err(e),
                        Ok(actions) => Ok(
                            ActionSequenceData {
                                id,
                                actions: ActionsTypeData::Pointer { parameters, actions },
                            },
                        ),
                    },
                }
            } else {
                Err(invalid_arg("Unknown action sequence type "@ + t))
            },
        },
    }
}

/// The wire form of a pause item.
pub open spec fn pause_json(p: PauseAction) -> JsonData {
    JsonData::Obj {
        fields: seq![
            ("type"@, JsonData::Str { s: "pause"@ }),
            ("duration"@, JsonData::Num { n: p.duration as int }),
        ],
    }
}

/// The wire form of an item every sequence kind accepts.
pub open spec fn general_action_json(g: GeneralAction) -> JsonData {
    match g {
        GeneralAction::Pause(p) => pause_json(p),
    }
}

/// The wire form of a key event.
pub open spec fn key_action_json(k: KeyAction) -> JsonData {
    match k {
        KeyAction::Up(a) => JsonData::Obj {
            fields: seq![
                ("type"@, JsonData::Str { s: "keyUp"@ }),
                ("value"@, JsonData::Str { s: seq![a.value] }),
            ],
        },
        KeyAction::Down(a) => JsonData::Obj {
            fields: seq![
                ("type"@, JsonData::Str { s: "keyDown"@ }),
                ("value"@, JsonData::Str { s: seq![a.value] }),
            ],
        },
    }
}

/// The wire form of a pointer origin.
pub open spec fn pointer_origin_json(o: PointerOriginData) -> JsonData {
    match o {
        PointerOriginData::Viewport => JsonData::Str { s: "viewport"@ },
        PointerOriginData::Pointer => JsonData::Str { s: "pointer"@ },
        PointerOriginData::Element { id } => web_element_json(id),
    }
}

/// The wire form of a pointer move; absent optional fields are omitted.
pub open spec fn pointer_move_json(m: PointerMoveData) -> JsonData {
    JsonData::Obj {
        fields: seq![("type"@, JsonData::Str { s: "pointerMove"@ })] + opt_u64_entry(
            "duration"@,
            m.duration,
        ) + seq![("origin"@, pointer_origin_json(m.origin))] + opt_i64_entry("x"@, m.x)
            + opt_i64_entry("y"@, m.y),
    }
}

/// The wire form of a pointer event.
pub open spec fn pointer_action_json(p: PointerActionData) -> JsonData {
    match p {
        PointerActionData::Up { button } => JsonData::Obj {
            fields: seq![
                ("type"@, JsonData::Str { s: "pointerUp"@ }),
                ("button"@, JsonData::Num { n: button as int }),
            ],
        },
        PointerActionData::Down { button } => JsonData::Obj {
            fields: seq![
                ("type"@, JsonData::Str { s: "pointerDown"@ }),
                ("button"@, JsonData::Num { n: button as int }),
            ],
        },
        PointerActionData::Move { m } => pointer_move_json(m),
        PointerActionData::Cancel => JsonData::Obj {
            fields: seq![("type"@, JsonData::Str { s: "pointerCancel"@ })],
        },
    }
}

/// The wire form of an item of a `none`-typed sequence.
pub open spec fn null_item_json(i: NullActionItem) -> JsonData {
    match i {
        NullActionItem::General(g) => general_action_json(g),
    }
}

/// The wire form of an item of a `key`-typed sequence.
pub open spec fn key_item_json(i: KeyActionItem) -> JsonData {
    match i {
        KeyActionItem::General(g) => general_action_json(g),
        KeyActionItem::Key(k) => key_action_json(k),
    }
}

/// The wire form of an item of a `pointer`-typed sequence.
pub open spec fn pointer_item_json(i: PointerActionItemData) -> JsonData {
    match i {
        PointerActionItemData::General { g } => general_action_json(g),
        PointerActionItemData::Pointer { p } => pointer_action_json(p),
    }
}

/// The wire forms of the items of a `none`-typed sequence.
pub open spec fn null_items_json(items: Seq<NullActionItem>) -> Seq<JsonData> {
    Seq::new(items.len(), |i: int| null_item_json(items[i]))
}

/// The wire forms of the items of a `key`-typed sequence.
pub open spec fn key_items_json(items: Seq<KeyActionItem>) -> Seq<JsonData> {
    Seq::new(items.len(), |i: int| key_item_json(items[i]))
}

/// The wire forms of the items of a `pointer`-typed sequence.
pub open spec fn pointer_items_json(items: Seq<PointerActionItemData>) -> Seq<JsonData> {
    Seq::new(items.len(), |i: int| pointer_item_json(items[i]))
}

/// The wire form of a pointer sequence's parameters block.
pub open spec fn pointer_parameters_json(p: PointerActionParameters) -> JsonData {
    JsonData::Obj {
        fields: seq![("pointerType"@, JsonData::Str { s: pointer_type_wire(p.pointer_type) })],
    }
}

/// The wire string a sequence kind is tagged with.
pub open spec fn actions_kind_wire(a: ActionsTypeData) -> Seq<char> {
    match a {
        ActionsTypeData::Null { .. } => "none"@,
        ActionsTypeData::Key { .. } => "key"@,
        ActionsTypeData::Pointer { .. } => "pointer"@,
    }
}

/// The wire forms of a sequence's items.
pub open spec fn actions_items_json(a: ActionsTypeData) -> Seq<JsonData> {
    match a {
        ActionsTypeData::Null { actions } => null_items_json(actions),
        ActionsTypeData::Key { actions } => key_items_json(actions),
        ActionsTypeData::Pointer { actions, .. } => pointer_items_json(actions),
    }
}

/// The wire form of an action sequence: its id (`null` when absent), its
/// parameters when pointer-typed, its type tag, and its items.
pub open spec fn action_sequence_json(s: ActionSequenceData) -> JsonData {
    JsonData::Obj {
        fields: seq![
            (
                "id"@,
                match s.id {
                    Option::Some(i) => JsonData::Str { s: i },
                    Option::None => JsonData::Null,
                },
            ),
        ] + (match s.actions {
            ActionsTypeData::Pointer { parameters, .. } => seq![
                ("parameters"@, pointer_parameters_json(parameters)),
            ],
            _ => Seq::empty(),
        }) + seq![
            ("type"@, JsonData::Str { s: actions_kind_wire(s.actions) }),
            ("actions"@, JsonData::Arr { items: actions_items_json(s.actions) }),
        ],
    }
}

/// Checks that a key action's `value` holds exactly one Unicode scalar
/// value, and hands that character back.
pub fn validate_key_value(value_str: &str) -> (r: WebDriverResult<char>)
    ensures
        match r {
            Ok(c) => key_value_of(value_str@) == Ok::<char, ErrorData>(c),
            Err(e) => key_value_of(value_str@) == Err::<char, ErrorData>(e@),
        },
{
    let n = value_str.unicode_len();
    if n == 0 {
        Err(invalid_error("Parameter 'value' was an empty string"))
    } else if n > 1 {
        Err(invalid_error("Parameter 'value' contained multiple characters"))
    } else {
        Ok(value_str.get_char(0))
    }
}

/// Reads a pause item out of an item object.
fn decode_pause(d: &JsonValue) -> (r: WebDriverResult<PauseAction>)
    ensures
        match r {
            Ok(p) => pause_of(d@) == Ok::<PauseAction, ErrorData>(p),
            Err(e) => pause_of(d@) == Err::<PauseAction, ErrorData>(e@),
        },
{
    match decode_req_u64(d, "duration") {
        Ok(duration) => Ok(PauseAction { duration }),
        Err(e) => Err(e),
    }
}

/// Reads the `origin` field of a pointer move.
fn decode_pointer_origin(d: &JsonValue) -> (r: WebDriverResult<PointerOrigin>)
    ensures
        match r {
            Ok(o) => pointer_origin_of(json_get(d@, "origin"@)) == Ok::<
                PointerOriginData,
                ErrorData,
            >(o@),
            Err(e) => pointer_origin_of(json_get(d@, "origin"@)) == Err::<
                PointerOriginData,
                ErrorData,
            >(e@),
        },
{
    match d.get_field("origin") {
        Option::None => Ok(PointerOrigin::Viewport),
        Option::Some(JsonValue::Null) => Ok(PointerOrigin::Viewport),
        Option::Some(JsonValue::Str(s)) => {
            if str_eq(s.as_str(), "viewport") {
                Ok(PointerOrigin::Viewport)
            } else if str_eq(s.as_str(), "pointer") {
                Ok(PointerOrigin::Pointer)
            } else {
                Err(
                    WebDriverError::new(
                        ErrorStatus::InvalidArgument,
                        String::from_str("Unknown pointer origin ").concat(s.as_str()),
                    ),
                )
            }
        },
        Option::Some(v @ JsonValue::Obj(_)) => match WebElement::from_json(v) {
            Ok(w) => Ok(PointerOrigin::Element(w)),
            Err(e) => Err(e),
        },
        Option::Some(_) => Err(invalid_error("Invalid pointer origin")),
    }
}

/// Reads a pointer move out of an item object.
fn decode_pointer_move(d: &JsonValue) -> (r: WebDriverResult<PointerMoveAction>)
    ensures
        match r {
            Ok(m) => pointer_move_of(d@) == Ok::<PointerMoveData, ErrorData>(m@),
            Err(e) => pointer_move_of(d@) == Err::<PointerMoveData, ErrorData>(e@),
        },
{
    let duration = match decode_opt_u64(d, "duration") {
        Ok(v) => v,
        Err(e) => return Err(e),
    };
    let origin = match decode_pointer_origin(d) {
        Ok(v) => v,
        Err(e) => return Err(e),
    };
    let x = match decode_opt_i64(d, "x") {
        Ok(v) => v,
        Err(e) => return Err(e),
    };
    let y = match decode_opt_i64(d, "y") {
        Ok(v) => v,
        Err(e) => return Err(e),
    };
    Ok(PointerMoveAction { duration, origin, x, y })
}

/// Reads an item of a `none`-typed sequence: only a pause is allowed.
fn decode_null_item(d: &JsonValue) -> (r: WebDriverResult<NullActionItem>)
    ensures
        match r {
            Ok(i) => null_item_of(d@) == Ok::<NullActionItem, ErrorData>(i),
            Err(e) => null_item_of(d@) == Err::<NullActionItem, ErrorData>(e@),
        },
{
    let t = match decode_req_string(d, "type") {
        Ok(t) => t,
        Err(e) => return Err(e),
    };
    if str_eq(t.as_str(), "pause") {
        match decode_pause(d) {
            Ok(p) => Ok(NullActionItem::General(GeneralAction::Pause(p))),
            Err(e) => Err(e),
        }
    } else {
        Err(
            WebDriverError::new(
                ErrorStatus::InvalidArgument,
                String::from_str("Invalid action type ").concat(t.as_str()),
            ),
        )
    }
}

/// Reads an item of a `key`-typed sequence: a pause or a key event.
fn decode_key_item(d: &JsonValue) -> (r: WebDriverResult<KeyActionItem>)
    ensures
        match r {
            Ok(i) => key_item_of(d@) == Ok::<KeyActionItem, ErrorData>(i),
            Err(e) => key_item_of(d@) == Err::<KeyActionItem, ErrorData>(e@),
        },
{
    let t = match decode_req_string(d, "type") {
        Ok(t) => t,
        Err(e) => return Err(e),
    };
    if str_eq(t.as_str(), "pause") {
        match decode_pause(d) {
            Ok(p) => Ok(KeyActionItem::General(GeneralAction::Pause(p))),
            Err(e) => Err(e),
        }
    } else if str_eq(t.as_str(), "keyUp") || str_eq(t.as_str(), "keyDown") {
        let s = match decode_req_string(d, "value") {
            Ok(s) => s,
            Err(e) => return Err(e),
        };
        let value = match validate_key_value(s.as_str()) {
            Ok(c) => c,
            Err(e) => return Err(e),
        };
        if str_eq(t.as_str(), "keyUp") {
            Ok(KeyActionItem::Key(KeyAction::Up(KeyUpAction { value })))
        } else {
            Ok(KeyActionItem::Key(KeyAction::Down(KeyDownAction { value })))
        }
    } else {
        Err(
            WebDriverError::new(
                ErrorStatus::InvalidArgument,
                String::from_str("Invalid action type ").concat(t.as_str()),
            ),
        )
    }
}

/// Reads an item of a `pointer`-typed sequence: a pause or a pointer event.
fn decode_pointer_item(d: &JsonValue) -> (r: WebDriverResult<PointerActionItem>)
    ensures
        match r {
            Ok(i) => pointer_item_of(d@) == Ok::<PointerActionItemData, ErrorData>(i@),
            Err(e) => pointer_item_of(d@) == Err::<PointerActionItemData, ErrorData>(e@),
        },
{
    let t = match decode_req_string(d, "type") {
        Ok(t) => t,
        Err(e) => return Err(e),
    };
    if str_eq(t.as_str(), "pause") {
        match decode_pause(d) {
            Ok(p) => Ok(PointerActionItem::General(GeneralAction::Pause(p))),
            Err(e) => Err(e),
        }
    } else if str_eq(t.as_str(), "pointerUp") {
        match decode_req_u64(d, "button") {
            Ok(button) => Ok(
                PointerActionItem::Pointer(PointerAction::Up(PointerUpAction { button })),
            ),
            Err(e) => Err(e),
        }
    } else if str_eq(t.as_str(), "pointerDown") {
        match decode_req_u64(d, "button") {
            Ok(button) => Ok(
                PointerActionItem::Pointer(PointerAction::Down(PointerDownAction { button })),
            ),
            Err(e) => Err(e),
        }
    } else if str_eq(t.as_str(), "pointerMove") {
        match decode_pointer_move(d) {
            Ok(m) => Ok(PointerActionItem::Pointer(PointerAction::Move(m))),
            Err(e) => Err(e),
        }
    } else if str_eq(t.as_str(), "pointerCancel") {
        Ok(PointerActionItem::Pointer(PointerAction::Cancel))
    } else {
        Err(
            WebDriverError::new(
                ErrorStatus::InvalidArgument,
                String::from_str("Invalid action type ").concat(t.as_str()),
            ),
        )
    }
}

/// An item that fails to decode fails the whole list with its own error,
/// provided every item before it decodes.
proof fn lemma_null_items_of_first_err(items: Seq<JsonData>, j: int, e: ErrorData)
    requires
        0 <= j < items.len(),
        null_items_of(items.subrange(0, j)) is Ok,
        null_item_of(items[j]) == Err::<NullActionItem, ErrorData>(e),
    ensures
        null_items_of(items) == Err::<Seq<NullActionItem>, ErrorData>(e),
    decreases items.len(),
{
    if j == items.len() - 1 {
        assert(items.drop_last() =~= items.subrange(0, j));
        assert(items.last() == items[j]);
    } else {
        assert(items.drop_last().subrange(0, j) =~= items.subrange(0, j));
        assert(items.drop_last()[j] == items[j]);
        lemma_null_items_of_first_err(items.drop_last(), j, e);
    }
}

/// An item that fails to decode fails the whole list with its own error,
/// provided every item before it decodes.
proof fn lemma_key_items_of_first_err(items: Seq<JsonData>, j: int, e: ErrorData)
    requires
        0 <= j < items.len(),
        key_items_of(items.subrange(0, j)) is Ok,
        key_item_of(items[j]) == Err::<KeyActionItem, ErrorData>(e),
    ensures
        key_items_of(items) == Err::<Seq<KeyActionItem>, ErrorData>(e),
    decreases items.len(),
{
    if j == items.len() - 1 {
        assert(items.drop_last() =~= items.subrange(0, j));
        assert(items.last() == items[j]);
    } else {
        assert(items.drop_last().subrange(0, j) =~= items.subrange(0, j));
        assert(items.drop_last()[j] == items[j]);
        lemma_key_items_of_first_err(items.drop_last(), j, e);
    }
}

/// An item that fails to decode fails the whole list with its own error,
/// provided every item before it decodes.
proof fn lemma_pointer_items_of_first_err(items: Seq<JsonData>, j: int, e: ErrorData)
    requires
        0 <= j < items.len(),
        pointer_items_of(items.subrange(0, j)) is Ok,
        pointer_item_of(items[j]) == Err::<PointerActionItemData, ErrorData>(e),
    ensures
        pointer_items_of(items) == Err::<Seq<PointerActionItemData>, ErrorData>(e),
    decreases items.len(),
{
    if j == items.len() - 1 {
        assert(items.drop_last() =~= items.subrange(0, j));
        assert(items.last() == items[j]);
    } else {
        assert(items.drop_last().subrange(0, j) =~= items.subrange(0, j));
        assert(items.drop_last()[j] == items[j]);
        lemma_pointer_items_of_first_err(items.drop_last(), j, e);
    }
}

/// Reads the `actions` array of a `none`-typed sequence.
#[verifier::loop_isolation(false)]
fn decode_null_actions(data: &JsonValue) -> (r: WebDriverResult<Vec<NullActionItem>>)
    ensures
        match r {
            Ok(v) => null_actions_of(data@) == Ok::<Seq<NullActionItem>, ErrorData>(v@),
            Err(e) => null_actions_of(data@) == Err::<Seq<NullActionItem>, ErrorData>(e@),
        },
{
    broadcast use crate::json::group_json_model_axioms;

    let arr = match data.get_field("actions") {
        Option::Some(JsonValue::Arr(items)) => items,
        Option::Some(_) => {
            return Err(wrong_type_error("actions", "array"));
        },
        Option::None => {
            return Err(missing_field_error("actions"));
        },
    };
    let ghost ms = crate::json::items_model(arr@);
    let mut out: Vec<NullActionItem> = Vec::new();
    let mut j: usize = 0;
    while j < arr.len()
        invariant
            j <= arr@.len(),
            null_items_of(ms.subrange(0, j as int)) == Ok::<Seq<NullActionItem>, ErrorData>(out@),
        decreases arr@.len() - j,
    {
        match decode_null_item(&arr[j]) {
            Ok(item) => {
                proof {
                    let pre = ms.subrange(0, j + 1);
                    assert(pre.drop_last() =~= ms.subrange(0, j as int));
                    assert(pre.last() == ms[j as int]);
                }
                out.push(item);
            },
            Err(e) => {
                proof {
                    lemma_null_items_of_first_err(ms, j as int, e@);
                }
                return Err(e);
            },
        }
        j += 1;
    }
    proof {
        assert(ms.subrange(0, ms.len() as int) =~= ms);
    }
    Ok(out)
}

/// Reads the `actions` array of a `key`-typed sequence.
#[verifier::loop_isolation(false)]
fn decode_key_actions(data: &JsonValue) -> (r: WebDriverResult<Vec<KeyActionItem>>)
    ensures
        match r {
            Ok(v) => key_actions_of(data@) == Ok::<Seq<KeyActionItem>, ErrorData>(v@),
            Err(e) => key_actions_of(data@) == Err::<Seq<KeyActionItem>, ErrorData>(e@),
        },
{
    broadcast use crate::json::group_json_model_axioms;

    let arr = match data.get_field("actions") {
        Option::Some(JsonValue::Arr(items)) => items,
        Option::Some(_) => {
            return Err(wrong_type_error("actions", "array"));
        },
        Option::None => {
            return Err(missing_field_error("actions"));
        },
    };
    let ghost ms = crate::json::items_model(arr@);
    let mut out: Vec<KeyActionItem> = Vec::new();
    let mut j: usize = 0;
    while j < arr.len()
        invariant
            j <= arr@.len(),
            key_items_of(ms.subrange(0, j as int)) == Ok::<Seq<KeyActionItem>, ErrorData>(out@),
        decreases arr@.len() - j,
    {
        match decode_key_item(&arr[j]) {
            Ok(item) => {
                proof {
                    let pre = ms.subrange(0, j + 1);
                    assert(pre.drop_last() =~= ms.subrange(0, j as int));
                    assert(pre.last() == ms[j as int]);
                }
                out.push(item);
            },
            Err(e) => {
                proof {
                    lemma_key_items_of_first_err(ms, j as int, e@);
                }
                return Err(e);
            },
        }
        j += 1;
    }
    proof {
        assert(ms.subrange(0, ms.len() as int) =~= ms);
    }
    Ok(out)
}

/// Reads the `actions` array of a `pointer`-typed sequence.
#[verifier::loop_isolation(false)]
fn decode_pointer_actions(data: &JsonValue) -> (r: WebDriverResult<Vec<PointerActionItem>>)
    ensures
        match r {
            Ok(v) => pointer_actions_of(data@) == Ok::<Seq<PointerActionItemData>, ErrorData>(
                pointer_items_model(v@),
            ),
            Err(e) => pointer_actions_of(data@) == Err::<Seq<PointerActionItemData>, ErrorData>(
                e@,
            ),
        },
{
    broadcast use crate::json::group_json_model_axioms, lemma_pointer_items_model_len, lemma_pointer_items_model_index;

    let arr = match data.get_field("actions") {
        Option::Some(JsonValue::Arr(items)) => items,
        Option::Some(_) => {
            return Err(wrong_type_error("actions", "array"));
        },
        Option::None => {
            return Err(missing_field_error("actions"));
        },
    };
    let ghost ms = crate::json::items_model(arr@);
    let mut out: Vec<PointerActionItem> = Vec::new();
    proof {
        assert(pointer_items_model(out@) =~= Seq::empty());
    }
    let mut j: usize = 0;
    while j < arr.len()
        invariant
            j <= arr@.len(),
            out@.len() == j,
            pointer_items_of(ms.subrange(0, j as int)) == Ok::<
                Seq<PointerActionItemData>,
                ErrorData,
            >(pointer_items_model(out@)),
        decreases arr@.len() - j,
    {
        match decode_pointer_item(&arr[j]) {
            Ok(item) => {
                proof {
                    let pre = ms.subrange(0, j + 1);
                    assert(pre.drop_last() =~= ms.subrange(0, j as int));
                    assert(pre.last() == ms[j as int]);
                    assert(pointer_items_model(out@.push(item)) =~= pointer_items_model(
                        out@,
                    ).push(item@));
                }
                out.push(item);
            },
            Err(e) => {
                proof {
                    lemma_pointer_items_of_first_err(ms, j as int, e@);
                }
                return Err(e);
            },
        }
        j += 1;
    }
    proof {
        assert(ms.subrange(0, ms.len() as int) =~= ms);
    }
    Ok(out)
}

/// Reads the optional `parameters` block of a pointer-typed sequence.
fn decode_pointer_parameters(data: &JsonValue) -> (r: WebDriverResult<PointerActionParameters>)
    ensures
        match r {
            Ok(p) => pointer_parameters_of(json_get(data@, "parameters"@)) == Ok::<
                PointerActionParameters,
                ErrorData,
            >(p),
            Err(e) => pointer_parameters_of(json_get(data@, "parameters"@)) == Err::<
                PointerActionParameters,
                ErrorData,
            >(e@),
        },
{
    match data.get_field("parameters") {
        Option::None => Ok(PointerActionParameters { pointer_type: PointerType::Mouse }),
        Option::Some(p @ JsonValue::Obj(_)) => match p.get_field("pointerType") {
            Option::None => Ok(PointerActionParameters { pointer_type: PointerType::Mouse }),
            Option::Some(JsonValue::Str(s)) => {
                if str_eq(s.as_str(), "mouse") {
                    Ok(PointerActionParameters { pointer_type: PointerType::Mouse })
                } else if str_eq(s.as_str(), "pen") {
                    Ok(PointerActionParameters { pointer_type: PointerType::Pen })
                } else if str_eq(s.as_str(), "touch") {
                    Ok(PointerActionParameters { pointer_type: PointerType::Touch })
                } else {
                    Err(
                        WebDriverError::new(
                            ErrorStatus::InvalidArgument,
                            String::from_str("Unknown pointerType ").concat(s.as_str()),
                        ),
                    )
                }
            },
            Option::Some(_) => Err(wrong_type_error("pointerType", "string")),
        },
        Option::Some(_) => Err(wrong_type_error("parameters", "object")),
    }
}

impl ActionSequence {
    /// Reads one action sequence out of a JSON value, validating every item
    /// against the set its declared type allows.
    pub fn from_json(data: &JsonValue) -> (r: WebDriverResult<ActionSequence>)
        ensures
            match r {
                Ok(s) => action_sequence_of(data@) == Ok::<ActionSequenceData, ErrorData>(s@),
                Err(e) => action_sequence_of(data@) == Err::<ActionSequenceData, ErrorData>(e@),
            },
    {
        let t = match decode_req_string(data, "type") {
            Ok(t) => t,
            Err(e) => return Err(e),
        };
        let id = match decode_opt_string(data, "id") {
            Ok(i) => i,
            Err(e) => return Err(e),
        };
        if str_eq(t.as_str(), "none") {
            match decode_null_actions(data) {
                Ok(actions) => Ok(ActionSequence { id, actions: ActionsType::Null { actions } }),
                Err(e) => Err(e),
            }
        } else if str_eq(t.as_str(), "key") {
            match decode_key_actions(data) {
                Ok(actions) => Ok(ActionSequence { id, actions: ActionsType::Key { actions } }),
                Err(e) => Err(e),
            }
        } else if str_eq(t.as_str(), "pointer") {
            let parameters = match decode_pointer_parameters(data) {
                Ok(p) => p,
                Err(e) => return Err(e),
            };
            match decode_pointer_actions(data) {
                Ok(actions) => Ok(
                    ActionSequence { id, actions: ActionsType::Pointer { parameters, actions } },
                ),
                Err(e) => Err(e),
            }
        } else {
            Err(
                WebDriverError::new(
                    ErrorStatus::InvalidArgument,
                    String::from_str("Unknown action sequence type ").concat(t.as_str()),
                ),
            )
        }
    }
}

/// Emits the wire form of a pause item.
fn pause_to_json(p: &PauseAction) -> (r: JsonValue)
    ensures
        r@ == pause_json(*p),
{
    let fields = vec![
        JsonField {
            key: String::from_str("type"),
            val: JsonValue::Str(String::from_str("pause")),
        },
        JsonField { key: String::from_str("duration"), val: JsonValue::Num(p.duration as i128) },
    ];
    let r = JsonValue::Obj(fields);
    proof {
        broadcast use crate::json::group_json_model_axioms;

        assert(crate::json::fields_model(fields@) =~= (pause_json(*p))->Obj_fields);
    }
    r
}

/// Emits the wire form of an item every sequence kind accepts.
fn general_action_to_json(g: &GeneralAction) -> (r: JsonValue)
    ensures
        r@ == general_action_json(*g),
{
    match g {
        GeneralAction::Pause(p) => pause_to_json(p),
    }
}

/// Emits the wire form of a key event.
fn key_action_to_json(k: &KeyAction) -> (r: JsonValue)
    ensures
        r@ == key_action_json(*k),
{
    let (tag, value) = match k {
        KeyAction::Up(a) => ("keyUp", a.value),
        KeyAction::Down(a) => ("keyDown", a.value),
    };
    let fields = vec![
        JsonField { key: String::from_str("type"), val: JsonValue::Str(String::from_str(tag)) },
        JsonField { key: String::from_str("value"), val: JsonValue::Str(char_to_string(value)) },
    ];
    let r = JsonValue::Obj(fields);
    proof {
        broadcast use crate::json::group_json_model_axioms;

        assert(crate::json::fields_model(fields@) =~= (key_action_json(*k))->Obj_fields);
    }
    r
}

/// Emits the wire form of a pointer origin.
fn pointer_origin_to_json(o: &PointerOrigin) -> (r: JsonValue)
    ensures
        r@ == pointer_origin_json(o@),
{
    match o {
        PointerOrigin::Viewport => JsonValue::Str(String::from_str("viewport")),
        PointerOrigin::Pointer => JsonValue::Str(String::from_str("pointer")),
        PointerOrigin::Element(w) => w.to_json(),
    }
}

/// Emits the wire form of a pointer move, leaving absent fields out.
fn pointer_move_to_json(m: &PointerMoveAction) -> (r: JsonValue)
    ensures
        r@ == pointer_move_json(m@),
{
    let mut fields: Vec<JsonField> = Vec::new();
    fields.push(
        JsonField {
            key: String::from_str("type"),
            val: JsonValue::Str(String::from_str("pointerMove")),
        },
    );
    if let Option::Some(d) = m.duration {
        fields.push(JsonField { key: String::from_str("duration"), val: JsonValue::Num(d as i128) });
    }
    fields.push(JsonField { key: String::from_str("origin"), val: pointer_origin_to_json(&m.origin) });
    if let Option::Some(x) = m.x {
        fields.push(JsonField { key: String::from_str("x"), val: JsonValue::Num(x as i128) });
    }
    if let Option::Some(y) = m.y {
        fields.push(JsonField { key: String::from_str("y"), val: JsonValue::Num(y as i128) });
    }
    let r = JsonValue::Obj(fields);
    proof {
        broadcast use crate::json::group_json_model_axioms;

        assert(crate::json::fields_model(fields@) =~= (pointer_move_json(m@))->Obj_fields);
    }
    r
}

/// Emits the wire form of a pointer event.
fn pointer_action_to_json(p: &PointerAction) -> (r: JsonValue)
    ensures
        r@ == pointer_action_json(p@),
{
    match p {
        PointerAction::Up(a) => {
            let fields = vec![
                JsonField {
                    key: String::from_str("type"),
                    val: JsonValue::Str(String::from_str("pointerUp")),
                },
                JsonField { key: String::from_str("button"), val: JsonValue::Num(a.button as i128) },
            ];
            let r = JsonValue::Obj(fields);
            proof {
                broadcast use crate::json::group_json_model_axioms;

                assert(crate::json::fields_model(fields@) =~= (pointer_action_json(p@))->Obj_fields);
            }
            r
        },
        PointerAction::Down(a) => {
            let fields = vec![
                JsonField {
                    key: String::from_str("type"),
                    val: JsonValue::Str(String::from_str("pointerDown")),
                },
                JsonField { key: String::from_str("button"), val: JsonValue::Num(a.button as i128) },
            ];
            let r = JsonValue::Obj(fields);
            proof {
                broadcast use crate::json::group_json_model_axioms;

                assert(crate::json::fields_model(fields@) =~= (pointer_action_json(p@))->Obj_fields);
            }
            r
        },
        PointerAction::Move(m) => pointer_move_to_json(m),
        PointerAction::Cancel => {
            let fields = vec![
                JsonField {
                    key: String::from_str("type"),
                    val: JsonValue::Str(String::from_str("pointerCancel")),
                },
            ];
            let r = JsonValue::Obj(fields);
            proof {
                broadcast use crate::json::group_json_model_axioms;

                assert(crate::json::fields_model(fields@) =~= (pointer_action_json(p@))->Obj_fields);
            }
            r
        },
    }
}

/// Emits the wire form of a pointer sequence's parameters block.
fn pointer_parameters_to_json(p: &PointerActionParameters) -> (r: JsonValue)
    ensures
        r@ == pointer_parameters_json(*p),
{
    let wire = match p.pointer_type {
        PointerType::Mouse => "mouse",
        PointerType::Pen => "pen",
        PointerType::Touch => "touch",
    };
    let fields = vec![
        JsonField {
            key: String::from_str("pointerType"),
            val: JsonValue::Str(String::from_str(wire)),
        },
    ];
    let r = JsonValue::Obj(fields);
    proof {
        broadcast use crate::json::group_json_model_axioms;

        assert(crate::json::fields_model(fields@) =~= (pointer_parameters_json(*p))->Obj_fields);
    }
    r
}

/// Emits the wire forms of the items of a `none`-typed sequence.
#[verifier::loop_isolation(false)]
fn null_items_to_json(items: &Vec<NullActionItem>) -> (r: Vec<JsonValue>)
    ensures
        crate::json::items_model(r@) == null_items_json(items@),
{
    broadcast use crate::json::group_json_model_axioms;

    let mut out: Vec<JsonValue> = Vec::new();
    let mut j: usize = 0;
    while j < items.len()
        invariant
            j <= items@.len(),
            out@.len() == j,
            forall|k: int| 0 <= k < j ==> (#[trigger] out@[k])@ == null_item_json(items@[k]),
        decreases items@.len() - j,
    {
        match &items[j] {
            NullActionItem::General(g) => out.push(general_action_to_json(g)),
        }
        j += 1;
    }
    proof {
        assert(crate::json::items_model(out@) =~= null_items_json(items@));
    }
    out
}

/// Emits the wire forms of the items of a `key`-typed sequence.
#[verifier::loop_isolation(false)]
fn key_items_to_json(items: &Vec<KeyActionItem>) -> (r: Vec<JsonValue>)
    ensures
        crate::json::items_model(r@) == key_items_json(items@),
{
    broadcast use crate::json::group_json_model_axioms;

    let mut out: Vec<JsonValue> = Vec::new();
    let mut j: usize = 0;
    while j < items.len()
        invariant
            j <= items@.len(),
            out@.len() == j,
            forall|k: int| 0 <= k < j ==> (#[trigger] out@[k])@ == key_item_json(items@[k]),
        decreases items@.len() - j,
    {
        match &items[j] {
            KeyActionItem::General(g) => out.push(general_action_to_json(g)),
            KeyActionItem::Key(k) => out.push(key_action_to_json(k)),
        }
        j += 1;
    }
    proof {
        assert(crate::json::items_model(out@) =~= key_items_json(items@));
    }
    out
}

/// Emits the wire forms of the items of a `pointer`-typed sequence.
#[verifier::loop_isolation(false)]
fn pointer_items_to_json(items: &Vec<PointerActionItem>) -> (r: Vec<JsonValue>)
    ensures
        crate::json::items_model(r@) == pointer_items_json(pointer_items_model(items@)),
{
    broadcast use crate::json::group_json_model_axioms, lemma_pointer_items_model_len, lemma_pointer_items_model_index;

    let mut out: Vec<JsonValue> = Vec::new();
    let mut j: usize = 0;
    while j < items.len()
        invariant
            j <= items@.len(),
            out@.len() == j,
            forall|k: int| 0 <= k < j ==> (#[trigger] out@[k])@ == pointer_item_json(items@[k]@),
        decreases items@.len() - j,
    {
        match &items[j] {
            PointerActionItem::General(g) => out.push(general_action_to_json(g)),
            PointerActionItem::Pointer(p) => out.push(pointer_action_to_json(p)),
        }
        j += 1;
    }
    proof {
        assert(crate::json::items_model(out@) =~= pointer_items_json(
            pointer_items_model(items@),
        ));
    }
    out
}

impl ActionSequence {
    /// Emits the wire form of this sequence: its id, its parameters when
    /// pointer-typed, its type tag, and its items.
    pub fn to_json(&self) -> (r: JsonValue)
        ensures
            r@ == action_sequence_json(self@),
    {
        let mut fields: Vec<JsonField> = Vec::new();
        match &self.id {
            Option::Some(s) => fields.push(
                JsonField { key: String::from_str("id"), val: JsonValue::Str(s.clone()) },
            ),
            Option::None => fields.push(
                JsonField { key: String::from_str("id"), val: JsonValue::Null },
            ),
        }
        let (tag, items) = match &self.actions {
            ActionsType::Null { actions } => ("none", null_items_to_json(actions)),
            ActionsType::Key { actions } => ("key", key_items_to_json(actions)),
            ActionsType::Pointer { parameters, actions } => {
                fields.push(
                    JsonField {
                        key: String::from_str("parameters"),
                        val: pointer_parameters_to_json(parameters),
                    },
                );
                ("pointer", pointer_items_to_json(actions))
            },
        };
        fields.push(
            JsonField { key: String::from_str("type"), val: JsonValue::Str(String::from_str(tag)) },
        );
        fields.push(JsonField { key: String::from_str("actions"), val: JsonValue::Arr(items) });
        let r = JsonValue::Obj(fields);
        proof {
            broadcast use crate::json::group_json_model_axioms;

            assert(crate::json::fields_model(fields@) =~= (action_sequence_json(self@))->Obj_fields);
        }
        r
    }
}

/// Decoding the wire form of a pause gives the pause back.
proof fn lemma_pause_round_trip(p: PauseAction)
    ensures
        pause_of(pause_json(p)) == Ok::<PauseAction, ErrorData>(p),
{
    reveal_strlit("type");
    reveal_strlit("duration");
    reveal_with_fuel(crate::json::obj_lookup_from, 10);
}

/// Decoding the wire form of an item of a `none`-typed sequence gives the
/// item back.
proof fn lemma_null_item_round_trip(i: NullActionItem)
    ensures
        null_item_of(null_item_json(i)) == Ok::<NullActionItem, ErrorData>(i),
{
    reveal_strlit("type");
    reveal_strlit("duration");
    reveal_strlit("pause");
    reveal_with_fuel(crate::json::obj_lookup_from, 10);
    match i {
        NullActionItem::General(GeneralAction::Pause(p)) => {
            lemma_pause_round_trip(p);
        },
    }
}

/// Decoding the wire form of an item of a `key`-typed sequence gives the
/// item back.
proof fn lemma_key_item_round_trip(i: KeyActionItem)
    ensures
        key_item_of(key_item_json(i)) == Ok::<KeyActionItem, ErrorData>(i),
{
    reveal_strlit("type");
    reveal_strlit("duration");
    reveal_strlit("value");
    reveal_strlit("pause");
    reveal_strlit("keyUp");
    reveal_strlit("keyDown");
    reveal_with_fuel(crate::json::obj_lookup_from, 10);
    match i {
        KeyActionItem::General(GeneralAction::Pause(p)) => {
            lemma_pause_round_trip(p);
        },
        KeyActionItem::Key(k) => {
            assert("pause"@[0] != "keyUp"@[0]);
            match k {
                KeyAction::Up(a) => {
                    assert(req_string_of(key_action_json(k), "value"@) == Ok::<
                        Seq<char>,
                        ErrorData,
                    >(seq![a.value]));
                },
                KeyAction::Down(a) => {
                    assert(req_string_of(key_action_json(k), "value"@) == Ok::<
                        Seq<char>,
                        ErrorData,
                    >(seq![a.value]));
                },
            }
        },
    }
}

/// Decoding the wire form of a pointer move gives the move back.
proof fn lemma_pointer_move_round_trip(m: PointerMoveData)
    ensures
        pointer_move_of(pointer_move_json(m)) == Ok::<PointerMoveData, ErrorData>(m),
{
    reveal_strlit("type");
    reveal_strlit("duration");
    reveal_strlit("origin");
    reveal_strlit("x");
    reveal_strlit("y");
    reveal_strlit("viewport");
    reveal_strlit("pointer");
    reveal_with_fuel(crate::json::obj_lookup_from, 10);
    assert("x"@[0] != "y"@[0]);
    assert(("type"@).len() != ("origin"@).len());
    assert(("duration"@).len() != ("origin"@).len());
    let d = pointer_move_json(m);
    match m.origin {
        PointerOriginData::Element { id } => {
            assert(web_element_of(web_element_json(id)) == Ok::<Seq<char>, ErrorData>(id));
        },
        _ => {},
    }
}

/// Decoding the wire form of an item of a `pointer`-typed sequence gives
/// the item back.
proof fn lemma_pointer_item_round_trip(i: PointerActionItemData)
    ensures
        pointer_item_of(pointer_item_json(i)) == Ok::<PointerActionItemData, ErrorData>(i),
{
    reveal_strlit("type");
    reveal_strlit("duration");
    reveal_strlit("button");
    reveal_strlit("pause");
    reveal_strlit("pointerUp");
    reveal_strlit("pointerDown");
    reveal_strlit("pointerMove");
    reveal_strlit("pointerCancel");
    reveal_with_fuel(crate::json::obj_lookup_from, 10);
    assert("pointerDown"@[7] != "pointerMove"@[7]);
    match i {
        PointerActionItemData::General { g: GeneralAction::Pause(p) } => {
            lemma_pause_round_trip(p);
        },
        PointerActionItemData::Pointer { p } => match p {
            PointerActionData::Move { m } => {
                lemma_pointer_move_round_trip(m);
            },
            _ => {},
        },
    }
}

/// Decoding the wire forms of a `none`-typed item list gives the list back.
proof fn lemma_null_items_round_trip(items: Seq<NullActionItem>)
    ensures
        null_items_of(null_items_json(items)) == Ok::<Seq<NullActionItem>, ErrorData>(items),
    decreases items.len(),
{
    let js = null_items_json(items);
    if items.len() == 0 {
        assert(items =~= Seq::<NullActionItem>::empty());
    } else {
        lemma_null_items_round_trip(items.drop_last());
        assert(js.drop_last() =~= null_items_json(items.drop_last()));
        assert(js.last() == null_item_json(items.last()));
        lemma_null_item_round_trip(items.last());
        assert(items.drop_last().push(items.last()) =~= items);
    }
}

/// Decoding the wire forms of a `key`-typed item list gives the list back.
proof fn lemma_key_items_round_trip(items: Seq<KeyActionItem>)
    ensures
        key_items_of(key_items_json(items)) == Ok::<Seq<KeyActionItem>, ErrorData>(items),
    decreases items.len(),
{
    let js = key_items_json(items);
    if items.len() == 0 {
        assert(items =~= Seq::<KeyActionItem>::empty());
    } else {
        lemma_key_items_round_trip(items.drop_last());
        assert(js.drop_last() =~= key_items_json(items.drop_last()));
        assert(js.last() == key_item_json(items.last()));
        lemma_key_item_round_trip(items.last());
        assert(items.drop_last().push(items.last()) =~= items);
    }
}

/// Decoding the wire forms of a `pointer`-typed item list gives the list
/// back.
proof fn lemma_pointer_items_round_trip(items: Seq<PointerActionItemData>)
    ensures
        pointer_items_of(pointer_items_json(items)) == Ok::<
            Seq<PointerActionItemData>,
            ErrorData,
        >(items),
    decreases items.len(),
{
    let js = pointer_items_json(items);
    if items.len() == 0 {
        assert(items =~= Seq::<PointerActionItemData>::empty());
    } else {
        lemma_pointer_items_round_trip(items.drop_last());
        assert(js.drop_last() =~= pointer_items_json(items.drop_last()));
        assert(js.last() == pointer_item_json(items.last()));
        lemma_pointer_item_round_trip(items.last());
        assert(items.drop_last().push(items.last()) =~= items);
    }
}

/// The round-trip law of the action chain: decoding the encoding of any
/// action sequence yields an equal sequence, whatever its kind, id, items
/// and parameters.
pub proof fn lemma_action_sequence_round_trip(s: ActionSequenceData)
    ensures
        action_sequence_of(action_sequence_json(s)) == Ok::<ActionSequenceData, ErrorData>(s),
{
    reveal_strlit("id");
    reveal_strlit("type");
    reveal_strlit("actions");
    reveal_strlit("parameters");
    reveal_strlit("pointerType");
    reveal_strlit("none");
    reveal_strlit("key");
    reveal_strlit("pointer");
    reveal_strlit("mouse");
    reveal_strlit("pen");
    reveal_strlit("touch");
    reveal_with_fuel(crate::json::obj_lookup_from, 10);
    assert("mouse"@[0] != "touch"@[0]);
    let d = action_sequence_json(s);
    match s.actions {
        ActionsTypeData::Null { actions } => {
            lemma_null_items_round_trip(actions);
            assert(req_string_of(d, "type"@) == Ok::<Seq<char>, ErrorData>("none"@));
        },
        ActionsTypeData::Key { actions } => {
            lemma_key_items_round_trip(actions);
            assert(req_string_of(d, "type"@) == Ok::<Seq<char>, ErrorData>("key"@));
        },
        ActionsTypeData::Pointer { parameters, actions } => {
            lemma_pointer_items_round_trip(actions);
            assert(req_string_of(d, "type"@) == Ok::<Seq<char>, ErrorData>("pointer"@));
        },
    }
}

} // verus!
