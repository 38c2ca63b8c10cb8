//! Typed commands and their decoding: one parameter decoder per payload
//! shape, and the dispatcher that turns a matched route, its URL captures
//! and the raw body into a typed message.

use vstd::prelude::*;
use vstd::string::*;
use crate::json::{
    JsonValue, JsonData, JsonField, json_get, items_model, fields_model, str_eq, copy_items,
    copy_fields, group_json_model_axioms, opt_u64_entry,
};
use crate::error::{
    ErrorStatus, ErrorData, WebDriverError, WebDriverResult, invalid_arg, missing_field_msg,
    wrong_type_msg, invalid_error, missing_field_error, wrong_type_error,
};
use crate::common::{
    Date, WebElement, web_element_of, web_element_json, FrameId, FrameIdData, frame_id_of,
    frame_id_json, LocatorStrategy, locator_strategy_of, locator_strategy_wire, CookieData,
    cookie_json,
};
use crate::fields::{
    req_string_of, opt_string_of, req_u64_of, opt_u64_of, opt_i64_of, bool_default_false_of,
    decode_req_string, decode_opt_string, decode_req_u64, decode_opt_u64, decode_opt_i64,
    decode_bool_default_false,
};
use crate::actions::{
    ActionSequence, ActionSequenceData, action_sequence_of, action_sequence_json,
};

verus! {

/// The payload of a navigation command.
#[derive(Debug, PartialEq)]
pub struct GetParameters {
    pub url: String,
}

impl View for GetParameters {
    type V = Seq<char>;

    open spec fn view(&self) -> Seq<char> {
        self.url@
    }
}

/// The navigation payload `d` holds.
pub open spec fn get_parameters_of(d: JsonData) -> Result<Seq<char>, ErrorData> {
    req_string_of(d, "url"@)
}

/// The wire form of a navigation payload.
pub open spec fn get_parameters_json(url: Seq<char>) -> JsonData {
    JsonData::Obj { fields: seq![("url"@, JsonData::Str { s: url })] }
}

impl GetParameters {
    pub fn from_json(data: &JsonValue) -> (r: WebDriverResult<GetParameters>)
        ensures
            match r {
                Ok(p) => get_parameters_of(data@) == Ok::<Seq<char>, ErrorData>(p@),
                Err(e) => get_parameters_of(data@) == Err::<Seq<char>, ErrorData>(e@),
            },
    {
        match decode_req_string(data, "url") {
            Ok(url) => Ok(GetParameters { url }),
            Err(e) => Err(e),
        }
    }

    pub fn to_json(&self) -> (r: JsonValue)
        ensures
            r@ == get_parameters_json(self@),
    {
        let fields = vec![
            JsonField { key: String::from_str("url"), val: JsonValue::Str(self.url.clone()) },
        ];
        let r = JsonValue::Obj(fields);
        proof {
            broadcast use group_json_model_axioms;

            assert(fields_model(fields@) =~= get_parameters_json(self@)->Obj_fields);
        }
        r
    }
}

/// The three optional session timeouts, in milliseconds.
#[derive(Debug, Clone, Copy, PartialEq)]
pub struct TimeoutsParameters {
    pub script: Option<u64>,
    pub page_load: Option<u64>,
    pub implicit: Option<u64>,
}

/// The timeouts payload `d` holds.
pub open spec fn timeouts_parameters_of(d: JsonData) -> Result<TimeoutsParameters, ErrorData> {
    match opt_u64_of(d, "script"@) {
        Err(e) => Err(e),
        Ok(script) => match opt_u64_of(d, "pageLoad"@) {
            Err(e) => Err(e),
            Ok(page_load) => match opt_u64_of(d, "implicit"@) {
                Err(e) => Err(e),
                Ok(implicit) => Ok(TimeoutsParameters { script, page_load, implicit }),
            },
        },
    }
}

/// The wire form of a timeouts payload; absent timeouts are omitted.
pub open spec fn timeouts_parameters_json(p: TimeoutsParameters) -> JsonData {
    JsonData::Obj {
        fields: opt_u64_entry("script"@, p.script) + opt_u64_entry(
            "pageLoad"@,
            p.page_load,
        ) + opt_u64_entry("implicit"@, p.implicit),
    }
}

impl TimeoutsParameters {
    pub fn from_json(data: &JsonValue) -> (r: WebDriverResult<TimeoutsParameters>)
        ensures
            match r {
                Ok(p) => timeouts_parameters_of(data@) == Ok::<TimeoutsParameters, ErrorData>(p),
                Err(e) => timeouts_parameters_of(data@) == Err::<TimeoutsParameters, ErrorData>(
                    e@,
                ),
            },
    {
        let script = match decode_opt_u64(data, "script") {
            Ok(v) => v,
            Err(e) => return Err(e),
        };
        let page_load = match decode_opt_u64(data, "pageLoad") {
            Ok(v) => v,
            Err(e) => return Err(e),
        };
        let implicit = match decode_opt_u64(data, "implicit") {
            Ok(v) => v,
            Err(e) => return Err(e),
        };
        Ok(TimeoutsParameters { script, page_load, implicit })
    }

    pub fn to_json(&self) -> (r: JsonValue)
        ensures
            r@ == timeouts_parameters_json(*self),
    {
        let mut fields: Vec<JsonField> = Vec::new();
        if let Option::Some(ms) = self.script {
            fields.push(JsonField { key: String::from_str("script"), val: JsonValue::Num(ms as i128) });
        }
        if let Option::Some(ms) = self.page_load {
            fields.push(JsonField { key: String::from_str("pageLoad"), val: JsonValue::Num(ms as i128) });
        }
        if let Option::Some(ms) = self.implicit {
            fields.push(JsonField { key: String::from_str("implicit"), val: JsonValue::Num(ms as i128) });
        }
        let r = JsonValue::Obj(fields);
        proof {
            broadcast use group_json_model_axioms;

            assert(fields_model(fields@) =~= timeouts_parameters_json(*self)->Obj_fields);
        }
        r
    }
}

/// A window placement request: all four coordinates optional, `null` and
/// absence alike meaning "leave unchanged".
#[derive(Debug, Clone, Copy, PartialEq)]
pub struct WindowRectParameters {
    pub x: Option<i64>,
    pub y: Option<i64>,
    pub width: Option<u64>,
    pub height: Option<u64>,
}

/// The window-rect payload `d` holds.
pub open spec fn window_rect_parameters_of(d: JsonData) -> Result<WindowRectParameters, ErrorData> {
    match opt_i64_of(d, "x"@) {
        Err(e) => Err(e),
        Ok(x) => match opt_i64_of(d, "y"@) {
            Err(e) => Err(e),
            Ok(y) => match opt_u64_of(d, "width"@) {
                Err(e) => Err(e),
                Ok(width) => match opt_u64_of(d, "height"@) {
                    Err(e) => Err(e),
                    Ok(height) => Ok(WindowRectParameters { x, y, width, height }),
                },
            },
        },
    }
}

/// An optional signed number's wire form: the number, or `null`.
pub open spec fn opt_i64_json(v: Option<i64>) -> JsonData {
    match v {
        Option::Some(n) => JsonData::Num { n: n as int },
        Option::None => JsonData::Null,
    }
}

/// An optional non-negative number's wire form: the number, or `null`.
pub open spec fn opt_u64_json(v: Option<u64>) -> JsonData {
    match v {
        Option::Some(n) => JsonData::Num { n: n as int },
        Option::None => JsonData::Null,
    }
}

/// The wire form of a window-rect payload: all four fields written, absent
/// ones as `null`.
pub open spec fn window_rect_parameters_json(p: WindowRectParameters) -> JsonData {
    JsonData::Obj {
        fields: seq![
            ("x"@, opt_i64_json(p.x)),
            ("y"@, opt_i64_json(p.y)),
            ("width"@, opt_u64_json(p.width)),
            ("height"@, opt_u64_json(p.height)),
        ],
    }
}

impl WindowRectParameters {
    pub fn from_json(data: &JsonValue) -> (r: WebDriverResult<WindowRectParameters>)
        ensures
            match r {
                Ok(p) => window_rect_parameters_of(data@) == Ok::<
                    WindowRectParameters,
                    ErrorData,
                >(p),
                Err(e) => window_rect_parameters_of(data@) == Err::<
                    WindowRectParameters,
                    ErrorData,
                >(e@),
            },
    {
        let x = match decode_opt_i64(data, "x") {
            Ok(v) => v,
            Err(e) => return Err(e),
        };
        let y = match decode_opt_i64(data, "y") {
            Ok(v) => v,
            Err(e) => return Err(e),
        };
        let width = match decode_opt_u64(data, "width") {
            Ok(v) => v,
            Err(e) => return Err(e),
        };
        let height = match decode_opt_u64(data, "height") {
            Ok(v) => v,
            Err(e) => return Err(e),
        };
        Ok(WindowRectParameters { x, y, width, height })
    }

    pub fn to_json(&self) -> (r: JsonValue)
        ensures
            r@ == window_rect_parameters_json(*self),
    {
        let x = match self.x {
            Option::Some(n) => JsonValue::Num(n as i128),
            Option::None => JsonValue::Null,
        };
        let y = match self.y {
            Option::Some(n) => JsonValue::Num(n as i128),
            Option::None => JsonValue::Null,
        };
        let width = match self.width {
            Option::Some(n) => JsonValue::Num(n as i128),
            Option::None => JsonValue::Null,
        };
        let height = match self.height {
            Option::Some(n) => JsonValue::Num(n as i128),
            Option::None => JsonValue::Null,
        };
        let fields = vec![
            JsonField { key: String::from_str("x"), val: x },
            JsonField { key: String::from_str("y"), val: y },
            JsonField { key: String::from_str("width"), val: width },
            JsonField { key: String::from_str("height"), val: height },
        ];
        let r = JsonValue::Obj(fields);
        proof {
            broadcast use group_json_model_axioms;

            assert(fields_model(fields@) =~= window_rect_parameters_json(*self)->Obj_fields);
        }
        r
    }
}

/// The payload naming the window to switch to.
#[derive(Debug, PartialEq)]
pub struct SwitchToWindowParameters {
    pub handle: String,
}

impl View for SwitchToWindowParameters {
    type V = Seq<char>;

    open spec fn view(&self) -> Seq<char> {
        self.handle@
    }
}

/// The switch-window payload `d` holds.
pub open spec fn switch_to_window_parameters_of(d: JsonData) -> Result<Seq<char>, ErrorData> {
    req_string_of(d, "handle"@)
}

/// The wire form of a switch-window payload.
pub open spec fn switch_to_window_parameters_json(handle: Seq<char>) -> JsonData {
    JsonData::Obj { fields: seq![("handle"@, JsonData::Str { s: handle })] }
}

impl SwitchToWindowParameters {
    pub fn from_json(data: &JsonValue) -> (r: WebDriverResult<SwitchToWindowParameters>)
        ensures
            match r {
                Ok(p) => switch_to_window_parameters_of(data@) == Ok::<Seq<char>, ErrorData>(p@),
                Err(e) => switch_to_window_parameters_of(data@) == Err::<Seq<char>, ErrorData>(
                    e@,
                ),
            },
    {
        match decode_req_string(data, "handle") {
            Ok(handle) => Ok(SwitchToWindowParameters { handle }),
            Err(e) => Err(e),
        }
    }

    pub fn to_json(&self) -> (r: JsonValue)
        ensures
            r@ == switch_to_window_parameters_json(self@),
    {
        let fields = vec![
            JsonField {
                key: String::from_str("handle"),
                val: JsonValue::Str(self.handle.clone()),
            },
        ];
        let r = JsonValue::Obj(fields);
        proof {
            broadcast use group_json_model_axioms;

            assert(fields_model(fields@) =~= switch_to_window_parameters_json(
                self@,
            )->Obj_fields);
        }
        r
    }
}

/// An element search: a strategy and the selector it interprets.
#[derive(Debug, PartialEq)]
pub struct LocatorParameters {
    pub using: LocatorStrategy,
    pub value: String,
}

impl View for LocatorParameters {
    type V = (LocatorStrategy, Seq<char>);

    open spec fn view(&self) -> (LocatorStrategy, Seq<char>) {
        (self.using, self.value@)
    }
}

/// The locator payload `d` holds.
pub open spec fn locator_parameters_of(d: JsonData) -> Result<
    (LocatorStrategy, Seq<char>),
    ErrorData,
> {
    match json_get(d, "using"@) {
        Option::None => Err(invalid_arg(missing_field_msg("using"@))),
        Option::Some(u) => match locator_strategy_of(u) {
            Err(e) => Err(e),
            Ok(using) => match req_string_of(d, "value"@) {
                Err(e) => Err(e),
                Ok(value) => Ok((using, value)),
            },
        },
    }
}

/// The wire form of a locator payload.
pub open spec fn locator_parameters_json(using: LocatorStrategy, value: Seq<char>) -> JsonData {
    JsonData::Obj {
        fields: seq![
            ("using"@, JsonData::Str { s: locator_strategy_wire(using) }),
            ("value"@, JsonData::Str { s: value }),
        ],
    }
}

impl LocatorParameters {
    pub fn from_json(data: &JsonValue) -> (r: WebDriverResult<LocatorParameters>)
        ensures
            match r {
                Ok(p) => locator_parameters_of(data@) == Ok::<
                    (LocatorStrategy, Seq<char>),
                    ErrorData,
                >(p@),
                Err(e) => locator_parameters_of(data@) == Err::<
                    (LocatorStrategy, Seq<char>),
                    ErrorData,
                >(e@),
            },
    {
        let using = match data.get_field("using") {
            Option::None => {
                return Err(missing_field_error("using"));
            },
            Option::Some(u) => match LocatorStrategy::from_json(u) {
                Ok(l) => l,
                Err(e) => return Err(e),
            },
        };
        match decode_req_string(data, "value") {
            Ok(value) => Ok(LocatorParameters { using, value }),
            Err(e) => Err(e),
        }
    }

    pub fn to_json(&self) -> (r: JsonValue)
        ensures
            r@ == locator_parameters_json(self.using, self.value@),
    {
        let fields = vec![
            JsonField { key: String::from_str("using"), val: self.using.to_json() },
            JsonField { key: String::from_str("value"), val: JsonValue::Str(self.value.clone()) },
        ];
        let r = JsonValue::Obj(fields);
        proof {
            broadcast use group_json_model_axioms;

            assert(fields_model(fields@) =~= locator_parameters_json(
                self.using,
                self.value@,
            )->Obj_fields);
        }
        r
    }
}

/// The payload naming the frame to switch to; `null` and absence mean the
/// top-level browsing context.
#[derive(Debug, PartialEq)]
pub struct SwitchToFrameParameters {
    pub id: Option<FrameId>,
}

impl View for SwitchToFrameParameters {
    type V = Option<FrameIdData>;

    open spec fn view(&self) -> Option<FrameIdData> {
        match self.id {
            Option::Some(f) => Some(f@),
            Option::None => None,
        }
    }
}

/// The switch-frame payload `d` holds.
pub open spec fn switch_to_frame_parameters_of(d: JsonData) -> Result<
    Option<FrameIdData>,
    ErrorData,
> {
    match json_get(d, "id"@) {
        Option::None => Ok(None),
        Option::Some(JsonData::Null) => Ok(None),
        Option::Some(v) => match frame_id_of(v) {
            Ok(f) => Ok(Some(f)),
            Err(e) => Err(e),
        },
    }
}

/// The wire form of a switch-frame payload.
pub open spec fn switch_to_frame_parameters_json(id: Option<FrameIdData>) -> JsonData {
    JsonData::Obj {
        fields: seq![
            (
                "id"@,
                match id {
                    Option::Some(f) => frame_id_json(f),
                    Option::None => JsonData::Null,
                },
            ),
        ],
    }
}

impl SwitchToFrameParameters {
    pub fn from_json(data: &JsonValue) -> (r: WebDriverResult<SwitchToFrameParameters>)
        ensures
            match r {
                Ok(p) => switch_to_frame_parameters_of(data@) == Ok::<
                    Option<FrameIdData>,
                    ErrorData,
                >(p@),
                Err(e) => switch_to_frame_parameters_of(data@) == Err::<
                    Option<FrameIdData>,
                    ErrorData,
                >(e@),
            },
    {
        match data.get_field("id") {
            Option::None => Ok(SwitchToFrameParameters { id: None }),
            Option::Some(JsonValue::Null) => Ok(SwitchToFrameParameters { id: None }),
            Option::Some(v) => match FrameId::from_json(v) {
                Ok(f) => Ok(SwitchToFrameParameters { id: Some(f) }),
                Err(e) => Err(e),
            },
        }
    }

    pub fn to_json(&self) -> (r: JsonValue)
        ensures
            r@ == switch_to_frame_parameters_json(self@),
    {
        let id = match &self.id {
            Option::Some(f) => f.to_json(),
            Option::None => JsonValue::Null,
        };
        let fields = vec![JsonField { key: String::from_str("id"), val: id }];
        let r = JsonValue::Obj(fields);
        proof {
            broadcast use group_json_model_axioms;

            assert(fields_model(fields@) =~= switch_to_frame_parameters_json(
                self@,
            )->Obj_fields);
        }
        r
    }
}

/// The text a send-keys command types.
#[derive(Debug, PartialEq)]
pub struct SendKeysParameters {
    pub text: String,
}

impl View for SendKeysParameters {
    type V = Seq<char>;

    open spec fn view(&self) -> Seq<char> {
        self.text@
    }
}

/// The send-keys payload `d` holds.
pub open spec fn send_keys_parameters_of(d: JsonData) -> Result<Seq<char>, ErrorData> {
    req_string_of(d, "text"@)
}

/// The message form of a send-keys payload. The protocol receives the text
/// under `text` but passes it on under `value`.
pub open spec fn send_keys_parameters_json(text: Seq<char>) -> JsonData {
    JsonData::Obj { fields: seq![("value"@, JsonData::Str { s: text })] }
}

impl SendKeysParameters {
    pub fn from_json(data: &JsonValue) -> (r: WebDriverResult<SendKeysParameters>)
        ensures
            match r {
                Ok(p) => send_keys_parameters_of(data@) == Ok::<Seq<char>, ErrorData>(p@),
                Err(e) => send_keys_parameters_of(data@) == Err::<Seq<char>, ErrorData>(e@),
            },
    {
        match decode_req_string(data, "text") {
            Ok(text) => Ok(SendKeysParameters { text }),
            Err(e) => Err(e),
        }
    }

    pub fn to_json(&self) -> (r: JsonValue)
        ensures
            r@ == send_keys_parameters_json(self@),
    {
        let fields = vec![
            JsonField { key: String::from_str("value"), val: JsonValue::Str(self.text.clone()) },
        ];
        let r = JsonValue::Obj(fields);
        proof {
            broadcast use group_json_model_axioms;

            assert(fields_model(fields@) =~= send_keys_parameters_json(self@)->Obj_fields);
        }
        r
    }
}

/// A script to execute, with its arguments carried through untouched.
#[derive(Debug, PartialEq)]
pub struct JavascriptCommandParameters {
    pub script: String,
    pub args: Option<Vec<JsonValue>>,
}

impl View for JavascriptCommandParameters {
    type V = (Seq<char>, Option<Seq<JsonData>>);

    open spec fn view(&self) -> (Seq<char>, Option<Seq<JsonData>>) {
        (
            self.script@,
            match self.args {
                Option::Some(v) => Some(items_model(v@)),
                Option::None => None,
            },
        )
    }
}

/// The script payload `d` holds.
pub open spec fn javascript_command_parameters_of(d: JsonData) -> Result<
    (Seq<char>, Option<Seq<JsonData>>),
    ErrorData,
> {
    match req_string_of(d, "script"@) {
        Err(e) => Err(e),
        Ok(script) => match json_get(d, "args"@) {
            Option::None => Ok((script, None)),
            Option::Some(JsonData::Null) => Ok((script, None)),
            Option::Some(JsonData::Arr { items }) => Ok((script, Some(items))),
            Option::Some(_) => Err(invalid_arg(wrong_type_msg("args"@, "array"@))),
        },
    }
}

/// The wire form of a script payload; absent arguments are `null`.
pub open spec fn javascript_command_parameters_json(
    script: Seq<char>,
    args: Option<Seq<JsonData>>,
) -> JsonData {
    JsonData::Obj {
        fields: seq![
            ("script"@, JsonData::Str { s: script }),
            (
                "args"@,
                match args {
                    Option::Some(items) => JsonData::Arr { items },
                    Option::None => JsonData::Null,
                },
            ),
        ],
    }
}

impl JavascriptCommandParameters {
    pub fn from_json(data: &JsonValue) -> (r: WebDriverResult<JavascriptCommandParameters>)
        ensures
            match r {
                Ok(p) => javascript_command_parameters_of(data@) == Ok::<
                    (Seq<char>, Option<Seq<JsonData>>),
                    ErrorData,
                >(p@),
                Err(e) => javascript_command_parameters_of(data@) == Err::<
                    (Seq<char>, Option<Seq<JsonData>>),
                    ErrorData,
                >(e@),
            },
    {
        let script = match decode_req_string(data, "script") {
            Ok(s) => s,
            Err(e) => return Err(e),
        };
        match data.get_field("args") {
            Option::None => Ok(JavascriptCommandParameters { script, args: None }),
            Option::Some(JsonValue::Null) => Ok(JavascriptCommandParameters { script, args: None }),
            Option::Some(JsonValue::Arr(items)) => Ok(
                JavascriptCommandParameters { script, args: Some(copy_items(items)) },
            ),
            Option::Some(_) => Err(wrong_type_error("args", "array")),
        }
    }

    pub fn to_json(&self) -> (r: JsonValue)
        ensures
            (r@ == javascript_command_parameters_json(self@.0, self@.1)),
    {
        let args = match &self.args {
            Option::Some(items) => JsonValue::Arr(copy_items(items)),
            Option::None => JsonValue::Null,
        };
        let fields = vec![
            JsonField { key: String::from_str("script"), val: JsonValue::Str(self.script.clone()) },
            JsonField { key: String::from_str("args"), val: args },
        ];
        let r = JsonValue::Obj(fields);
        proof {
            broadcast use group_json_model_axioms;

            assert(fields_model(fields@) =~= javascript_command_parameters_json(
                self@.0,
                self@.1,
            )->Obj_fields);
        }
        r
    }
}

/// The cookie an add-cookie command sets.
#[derive(Debug, PartialEq)]
pub struct AddCookieParameters {
    pub name: String,
    pub value: String,
    pub path: Option<String>,
    pub domain: Option<String>,
    pub expiry: Option<Date>,
    pub secure: bool,
    pub http_only: bool,
}

impl View for AddCookieParameters {
    type V = CookieData;

    open spec fn view(&self) -> CookieData {
        CookieData {
            name: self.name@,
            value: self.value@,
            path: match self.path {
                Option::Some(s) => Some(s@),
                Option::None => None,
            },
            domain: match self.domain {
                Option::Some(s) => Some(s@),
                Option::None => None,
            },
            expiry: self.expiry,
            secure: self.secure,
            http_only: self.http_only,
        }
    }
}

/// The cookie fields `d` holds: name and value required, path, domain and
/// expiry optional, the two flags false when absent.
pub open spec fn cookie_of(d: JsonData) -> Result<CookieData, ErrorData> {
    match req_string_of(d, "name"@) {
        Err(e) => Err(e),
        Ok(name) => match req_string_of(d, "value"@) {
            Err(e) => Err(e),
            Ok(value) => match opt_string_of(d, "path"@) {
                Err(e) => Err(e),
                Ok(path) => match opt_string_of(d, "domain"@) {
                    Err(e) => Err(e),
                    Ok(domain) => match opt_u64_of(d, "expiry"@) {
                        Err(e) => Err(e),
                        Ok(expiry) => match bool_default_false_of(d, "secure"@) {
                            Err(e) => Err(e),
                            Ok(secure) => match bool_default_false_of(d, "httpOnly"@) {
                                Err(e) => Err(e),
                                Ok(http_only) => Ok(
                                    CookieData {
                                        name,
                                        value,
                                        path,
                                        domain,
                                        expiry: match expiry {
                                            Option::Some(secs) => Some(Date(secs)),
                                            Option::None => None,
                                        },
                                        secure,
                                        http_only,
                                    },
                                ),
                            },
                        },
                    },
                },
            },
        },
    }
}

impl AddCookieParameters {
    /// Reads the cookie fields out of the (already unwrapped) cookie
    /// object.
    pub fn from_json(data: &JsonValue) -> (r: WebDriverResult<AddCookieParameters>)
        ensures
            match r {
                Ok(p) => cookie_of(data@) == Ok::<CookieData, ErrorData>(p@),
                Err(e) => cookie_of(data@) == Err::<CookieData, ErrorData>(e@),
            },
    {
        let name = match decode_req_string(data, "name") {
            Ok(v) => v,
            Err(e) => return Err(e),
        };
        let value = match decode_req_string(data, "value") {
            Ok(v) => v,
            Err(e) => return Err(e),
        };
        let path = match decode_opt_string(data, "path") {
            Ok(v) => v,
            Err(e) => return Err(e),
        };
        let domain = match decode_opt_string(data, "domain") {
            Ok(v) => v,
            Err(e) => return Err(e),
        };
        let expiry = match decode_opt_u64(data, "expiry") {
            Ok(Option::Some(secs)) => Some(Date::new(secs)),
            Ok(Option::None) => None,
            Err(e) => return Err(e),
        };
        let secure = match decode_bool_default_false(data, "secure") {
            Ok(v) => v,
            Err(e) => return Err(e),
        };
        let http_only = match decode_bool_default_false(data, "httpOnly") {
            Ok(v) => v,
            Err(e) => return Err(e),
        };
        Ok(AddCookieParameters { name, value, path, domain, expiry, secure, http_only })
    }

    pub fn to_json(&self) -> (r: JsonValue)
        ensures
            r@ == cookie_json(self@),
    {
        let path = match &self.path {
            Option::Some(s) => JsonValue::Str(s.clone()),
            Option::None => JsonValue::Null,
        };
        let domain = match &self.domain {
            Option::Some(s) => JsonValue::Str(s.clone()),
            Option::None => JsonValue::Null,
        };
        let expiry = match self.expiry {
            Option::Some(Date(secs)) => JsonValue::Num(secs as i128),
            Option::None => JsonValue::Null,
        };
        let fields = vec![
            JsonField { key: String::from_str("name"), val: JsonValue::Str(self.name.clone()) },
            JsonField { key: String::from_str("value"), val: JsonValue::Str(self.value.clone()) },
            JsonField { key: String::from_str("path"), val: path },
            JsonField { key: String::from_str("domain"), val: domain },
            JsonField { key: String::from_str("expiry"), val: expiry },
            JsonField { key: String::from_str("secure"), val: JsonValue::Bool(self.secure) },
            JsonField { key: String::from_str("httpOnly"), val: JsonValue::Bool(self.http_only) },
        ];
        let r = JsonValue::Obj(fields);
        proof {
            broadcast use group_json_model_axioms;

            assert(fields_model(fields@) =~= cookie_json(self@)->Obj_fields);
        }
        r
    }
}

/// The add-cookie body: the cookie nested one level under a `cookie` key,
/// unlike every other payload, which reads its fields at the top level.
#[derive(Debug, PartialEq)]
pub struct AddCookieParametersWrapper {
    pub cookie: AddCookieParameters,
}

/// The wrapped add-cookie payload `d` holds.
pub open spec fn add_cookie_parameters_of(d: JsonData) -> Result<CookieData, ErrorData> {
    match json_get(d, "cookie"@) {
        Option::None => Err(invalid_arg(missing_field_msg("cookie"@))),
        Option::Some(inner) => if inner is Obj {
            cookie_of(inner)
        } else {
            Err(invalid_arg(wrong_type_msg("cookie"@, "object"@)))
        },
    }
}

impl AddCookieParametersWrapper {
    pub fn from_json(data: &JsonValue) -> (r: WebDriverResult<AddCookieParametersWrapper>)
        ensures
            match r {
                Ok(p) => add_cookie_parameters_of(data@) == Ok::<CookieData, ErrorData>(
                    p.cookie@,
                ),
                Err(e) => add_cookie_parameters_of(data@) == Err::<CookieData, ErrorData>(e@),
            },
    {
        match data.get_field("cookie") {
            Option::None => Err(missing_field_error("cookie")),
            Option::Some(inner @ JsonValue::Obj(_)) => match AddCookieParameters::from_json(
                inner,
            ) {
                Ok(cookie) => Ok(AddCookieParametersWrapper { cookie }),
                Err(e) => Err(e),
            },
            Option::Some(_) => Err(wrong_type_error("cookie", "object")),
        }
    }
}

/// The element a screenshot is taken of, if not the whole page.
#[derive(Debug, PartialEq)]
pub struct TakeScreenshotParameters {
    pub element: Option<WebElement>,
}

impl View for TakeScreenshotParameters {
    type V = Option<Seq<char>>;

    open spec fn view(&self) -> Option<Seq<char>> {
        match self.element {
            Option::Some(w) => Some(w@),
            Option::None => None,
        }
    }
}

/// The screenshot payload `d` holds.
pub open spec fn take_screenshot_parameters_of(d: JsonData) -> Result<
    Option<Seq<char>>,
    ErrorData,
> {
    match json_get(d, "element"@) {
        Option::None => Ok(None),
        Option::Some(JsonData::Null) => Ok(None),
        Option::Some(v) => match web_element_of(v) {
            Ok(id) => Ok(Some(id)),
            Err(e) => Err(e),
        },
    }
}

/// The wire form of a screenshot payload.
pub open spec fn take_screenshot_parameters_json(element: Option<Seq<char>>) -> JsonData {
    JsonData::Obj {
        fields: seq![
            (
                "element"@,
                match element {
                    Option::Some(id) => web_element_json(id),
                    Option::None => JsonData::Null,
                },
            ),
        ],
    }
}

impl TakeScreenshotParameters {
    pub fn from_json(data: &JsonValue) -> (r: WebDriverResult<TakeScreenshotParameters>)
        ensures
            match r {
                Ok(p) => take_screenshot_parameters_of(data@) == Ok::<
                    Option<Seq<char>>,
                    ErrorData,
                >(p@),
                Err(e) => take_screenshot_parameters_of(data@) == Err::<
                    Option<Seq<char>>,
                    ErrorData,
                >(e@),
            },
    {
        match data.get_field("element") {
            Option::None => Ok(TakeScreenshotParameters { element: None }),
            Option::Some(JsonValue::Null) => Ok(TakeScreenshotParameters { element: None }),
            Option::Some(v) => match WebElement::from_json(v) {
                Ok(w) => Ok(TakeScreenshotParameters { element: Some(w) }),
                Err(e) => Err(e),
            },
        }
    }

    pub fn to_json(&self) -> (r: JsonValue)
        ensures
            r@ == take_screenshot_parameters_json(self@),
    {
        let element = match &self.element {
            Option::Some(w) => w.to_json(),
            Option::None => JsonValue::Null,
        };
        let fields = vec![JsonField { key: String::from_str("element"), val: element }];
        let r = JsonValue::Obj(fields);
        proof {
            broadcast use group_json_model_axioms;

            assert(fields_model(fields@) =~= take_screenshot_parameters_json(
                self@,
            )->Obj_fields);
        }
        r
    }
}

/// The body of a perform-actions command: one sequence per input device.
#[derive(Debug, PartialEq)]
pub struct ActionsParameters {
    pub actions: Vec<ActionSequence>,
}

/// The models of a list of action sequences.
pub open spec fn action_sequences_model(s: Seq<ActionSequence>) -> Seq<ActionSequenceData> {
    Seq::new(s.len(), |i: int| s[i]@)
}

pub broadcast proof fn lemma_action_sequences_model_len(s: Seq<ActionSequence>)
    ensures
        #[trigger] action_sequences_model(s).len() == s.len(),
{
}

pub broadcast proof fn lemma_action_sequences_model_index(s: Seq<ActionSequence>, i: int)
    requires
        0 <= i < s.len(),
    ensures
        #[trigger] action_sequences_model(s)[i] == s[i]@,
{
}

impl View for ActionsParameters {
    type V = Seq<ActionSequenceData>;

    open spec fn view(&self) -> Seq<ActionSequenceData> {
        action_sequences_model(self.actions@)
    }
}

/// The action sequences a wire list holds, first violated constraint
/// first.
pub open spec fn action_sequences_of(items: Seq<JsonData>) -> Result<
    Seq<ActionSequenceData>,
    ErrorData,
>
    decreases items.len(),
{
    if items.len() == 0 {
        Ok(Seq::empty())
    } else {
        match action_sequences_of(items.drop_last()) {
            Err(e) => Err(e),
            Ok(rest) => match action_sequence_of(items.last()) {
                Err(e) => Err(e),
                Ok(s) => Ok(rest.push(s)),
            },
        }
    }
}

/// The perform-actions payload `d` holds.
pub open spec fn actions_parameters_of(d: JsonData) -> Result<Seq<ActionSequenceData>, ErrorData> {
    match json_get(d, "actions"@) {
        Option::None => Err(invalid_arg(missing_field_msg("actions"@))),
        Option::Some(JsonData::Arr { items }) => action_sequences_of(items),
        Option::Some(_) => Err(invalid_arg(wrong_type_msg("actions"@, "array"@))),
    }
}

/// The wire forms of a list of action sequences.
pub open spec fn action_sequences_json(s: Seq<ActionSequenceData>) -> Seq<JsonData> {
    Seq::new(s.len(), |i: int| action_sequence_json(s[i]))
}

/// The wire form of a perform-actions payload.
pub open spec fn actions_parameters_json(s: Seq<ActionSequenceData>) -> JsonData {
    JsonData::Obj {
        fields: seq![("actions"@, JsonData::Arr { items: action_sequences_json(s) })],
    }
}

/// A sequence that fails to decode fails the whole list with its own
/// error, provided every sequence before it decodes.
proof fn lemma_action_sequences_of_first_err(items: Seq<JsonData>, j: int, e: ErrorData)
    requires
        0 <= j < items.len(),
        action_sequences_of(items.subrange(0, j)) is Ok,
        action_sequence_of(items[j]) == Err::<ActionSequenceData, ErrorData>(e),
    ensures
        action_sequences_of(items) == Err::<Seq<ActionSequenceData>, ErrorData>(e),
    decreases items.len(),
{
    if j == items.len() - 1 {
        assert(items.drop_last() =~= items.subrange(0, j));
        assert(items.last() == items[j]);
    } else {
        assert(items.drop_last().subrange(0, j) =~= items.subrange(0, j));
        assert(items.drop_last()[j] == items[j]);
        lemma_action_sequences_of_first_err(items.drop_last(), j, e);
    }
}

impl ActionsParameters {
    /// Reads a perform-actions payload, decoding each sequence in order.
    #[verifier::loop_isolation(false)]
    pub fn from_json(data: &JsonValue) -> (r: WebDriverResult<ActionsParameters>)
        ensures
            match r {
                Ok(p) => actions_parameters_of(data@) == Ok::<
                    Seq<ActionSequenceData>,
                    ErrorData,
                >(p@),
                Err(e) => actions_parameters_of(data@) == Err::<
                    Seq<ActionSequenceData>,
                    ErrorData,
                >(e@),
            },
    {
        broadcast use group_json_model_axioms, lemma_action_sequences_model_len, lemma_action_sequences_model_index;

        let arr = match data.get_field("actions") {
            Option::Some(JsonValue::Arr(items)) => items,
            Option::Some(_) => {
                return Err(wrong_type_error("actions", "array"));
            },
            Option::None => {
                return Err(missing_field_error("actions"));
            },
        };
        let ghost ms = items_model(arr@);
        let mut out: Vec<ActionSequence> = Vec::new();
        proof {
            assert(action_sequences_model(out@) =~= Seq::empty());
        }
        let mut j: usize = 0;
        while j < arr.len()
            invariant
                j <= arr@.len(),
                out@.len() == j,
                action_sequences_of(ms.subrange(0, j as int)) == Ok::<
                    Seq<ActionSequenceData>,
                    ErrorData,
                >(action_sequences_model(out@)),
            decreases arr@.len() - j,
        {
            match ActionSequence::from_json(&arr[j]) {
                Ok(s) => {
                    proof {
                        let pre = ms.subrange(0, j + 1);
                        assert(pre.drop_last() =~= ms.subrange(0, j as int));
                        assert(pre.last() == ms[j as int]);
                        assert(action_sequences_model(out@.push(s)) =~= action_sequences_model(
                            out@,
                        ).push(s@));
                    }
                    out.push(s);
                },
                Err(e) => {
                    proof {
                        lemma_action_sequences_of_first_err(ms, j as int, e@);
                    }
                    return Err(e);
                },
            }
            j += 1;
        }
        proof {
            assert(ms.subrange(0, ms.len() as int) =~= ms);
        }
        Ok(ActionsParameters { actions: out })
    }

    /// Emits the wire form of a perform-actions payload.
    #[verifier::loop_isolation(false)]
    pub fn to_json(&self) -> (r: JsonValue)
        ensures
            r@ == actions_parameters_json(self@),
    {
        broadcast use group_json_model_axioms, lemma_action_sequences_model_len, lemma_action_sequences_model_index;

        let mut items: Vec<JsonValue> = Vec::new();
        let mut j: usize = 0;
        while j < self.actions.len()
            invariant
                j <= self.actions@.len(),
                items@.len() == j,
                forall|k: int|
                    0 <= k < j ==> (#[trigger] items@[k])@ == action_sequence_json(
                        self.actions@[k]@,
                    ),
            decreases self.actions@.len() - j,
        {
            items.push(self.actions[j].to_json());
            j += 1;
        }
        proof {
            assert(items_model(items@) =~= action_sequences_json(self@));
        }
        let fields = vec![
            JsonField { key: String::from_str("actions"), val: JsonValue::Arr(items) },
        ];
        let r = JsonValue::Obj(fields);
        proof {
            assert(fields_model(fields@) =~= actions_parameters_json(self@)->Obj_fields);
        }
        r
    }
}

/// A set of capability fields, carried through this layer untouched.
pub type Capabilities = Vec<JsonField>;

/// The capability payload of a spec-style new-session request.
#[derive(Debug, PartialEq)]
pub struct SpecNewSessionParameters {
    pub always_match: Capabilities,
    pub first_match: Vec<Capabilities>,
}

/// The capability payload of a legacy new-session request.
#[derive(Debug, PartialEq)]
pub struct LegacyNewSessionParameters {
    pub desired: Capabilities,
    pub required: Capabilities,
}

/// A spec-style new-session body: the parameters one level under a
/// `capabilities` key.
#[derive(Debug, PartialEq)]
pub struct SpecNewSessionParametersWrapper {
    pub capabilities: SpecNewSessionParameters,
}

/// A new-session body as received: spec-style when a `capabilities` key is
/// present, legacy otherwise.
#[derive(Debug, PartialEq)]
pub enum NewSessionParametersWrapper {
    Spec(SpecNewSessionParametersWrapper),
    Legacy(LegacyNewSessionParameters),
}

/// A decoded new-session request, its wrapper nesting stripped.
#[derive(Debug, PartialEq)]
pub enum NewSessionParameters {
    Spec(SpecNewSessionParameters),
    Legacy(LegacyNewSessionParameters),
}

/// The models of a list of capability sets.
pub open spec fn capabilities_list_model(s: Seq<Capabilities>) -> Seq<
    Seq<(Seq<char>, JsonData)>,
> {
    Seq::new(s.len(), |i: int| fields_model(s[i]@))
}

pub broadcast proof fn lemma_capabilities_list_model_len(s: Seq<Capabilities>)
    ensures
        #[trigger] capabilities_list_model(s).len() == s.len(),
{
}

pub broadcast proof fn lemma_capabilities_list_model_index(s: Seq<Capabilities>, i: int)
    requires
        0 <= i < s.len(),
    ensures
        #[trigger] capabilities_list_model(s)[i] == fields_model(s[i]@),
{
}

/// The model of a decoded new-session request.
pub enum NewSessionParametersData {
    Spec {
        always_match: Seq<(Seq<char>, JsonData)>,
        first_match: Seq<Seq<(Seq<char>, JsonData)>>,
    },
    Legacy { desired: Seq<(Seq<char>, JsonData)>, required: Seq<(Seq<char>, JsonData)> },
}

impl View for SpecNewSessionParameters {
    type V = (Seq<(Seq<char>, JsonData)>, Seq<Seq<(Seq<char>, JsonData)>>);

    open spec fn view(&self) -> (Seq<(Seq<char>, JsonData)>, Seq<Seq<(Seq<char>, JsonData)>>) {
        (fields_model(self.always_match@), capabilities_list_model(self.first_match@))
    }
}

impl View for LegacyNewSessionParameters {
    type V = (Seq<(Seq<char>, JsonData)>, Seq<(Seq<char>, JsonData)>);

    open spec fn view(&self) -> (Seq<(Seq<char>, JsonData)>, Seq<(Seq<char>, JsonData)>) {
        (fields_model(self.desired@), fields_model(self.required@))
    }
}

impl View for NewSessionParametersWrapper {
    type V = NewSessionParametersData;

    open spec fn view(&self) -> NewSessionParametersData {
        match self {
            NewSessionParametersWrapper::Spec(w) => NewSessionParametersData::Spec {
                always_match: w.capabilities@.0,
                first_match: w.capabilities@.1,
            },
            NewSessionParametersWrapper::Legacy(l) => NewSessionParametersData::Legacy {
                desired: l@.0,
                required: l@.1,
            },
        }
    }
}

impl View for NewSessionParameters {
    type V = NewSessionParametersData;

    open spec fn view(&self) -> NewSessionParametersData {
        match self {
            NewSessionParameters::Spec(p) => NewSessionParametersData::Spec {
                always_match: p@.0,
                first_match: p@.1,
            },
            NewSessionParameters::Legacy(l) => NewSessionParametersData::Legacy {
                desired: l@.0,
                required: l@.1,
            },
        }
    }
}

/// An optional capability object: absent means empty, anything but an
/// object is rejected naming the field.
pub open spec fn capabilities_object_of(o: Option<JsonData>, name: Seq<char>) -> Result<
    Seq<(Seq<char>, JsonData)>,
    ErrorData,
> {
    match o {
        Option::None => Ok(Seq::empty()),
        Option::Some(JsonData::Obj { fields }) => Ok(fields),
        Option::Some(_) => Err(invalid_arg(wrong_type_msg(name, "object"@))),
    }
}

/// An optional list of capability objects: absent means empty; every
/// element must be an object.
pub open spec fn capabilities_list_of(o: Option<JsonData>) -> Result<
    Seq<Seq<(Seq<char>, JsonData)>>,
    ErrorData,
> {
    match o {
        Option::None => Ok(Seq::empty()),
        Option::Some(JsonData::Arr { items }) => if forall|k: int|
            0 <= k < items.len() ==> (#[trigger] items[k]) is Obj {
            Ok(
                Seq::new(
                    items.len(),
                    |i: int|
                        if 0 <= i < items.len() {
                            items[i]->Obj_fields
                        } else {
                            Seq::empty()
                        },
                ),
            )
        } else {
            Err(invalid_arg(wrong_type_msg("firstMatch"@, "array of objects"@)))
        },
        Option::Some(_) => Err(invalid_arg(wrong_type_msg("firstMatch"@, "array"@))),
    }
}

/// The new-session payload `d` holds: spec-style under a `capabilities`
/// key, else legacy under `desiredCapabilities` and `requiredCapabilities`.
pub open spec fn new_session_parameters_of(d: JsonData) -> Result<
    NewSessionParametersData,
    ErrorData,
> {
    match json_get(d, "capabilities"@) {
        Option::Some(caps) => if !(caps is Obj) {
            Err(invalid_arg(wrong_type_msg("capabilities"@, "object"@)))
        } else {
            match capabilities_object_of(json_get(caps, "alwaysMatch"@), "alwaysMatch"@) {
                Err(e) => Err(e),
                Ok(always_match) => match capabilities_list_of(json_get(caps, "firstMatch"@)) {
                    Err(e) => Err(e),
                    Ok(first_match) => Ok(
                        NewSessionParametersData::Spec { always_match, first_match },
                    ),
                },
            }
        },
        Option::None => match capabilities_object_of(
            json_get(d, "desiredCapabilities"@),
            "desiredCapabilities"@,
        ) {
            Err(e) => Err(e),
            Ok(desired) => match capabilities_object_of(
                json_get(d, "requiredCapabilities"@),
                "requiredCapabilities"@,
            ) {
                Err(e) => Err(e),
                Ok(required) => Ok(NewSessionParametersData::Legacy { desired, required }),
            },
        },
    }
}

/// Reads an optional capability object field.
fn decode_capabilities_object(data: &JsonValue, name: &str) -> (r: WebDriverResult<Capabilities>)
    ensures
        match r {
            Ok(c) => capabilities_object_of(json_get(data@, name@), name@) == Ok::<
                Seq<(Seq<char>, JsonData)>,
                ErrorData,
            >(fields_model(c@)),
            Err(e) => capabilities_object_of(json_get(data@, name@), name@) == Err::<
                Seq<(Seq<char>, JsonData)>,
                ErrorData,
            >(e@),
        },
{
    match data.get_field(name) {
        Option::None => {
            let c: Capabilities = Vec::new();
            proof {
                assert(fields_model(c@) =~= Seq::<(Seq<char>, JsonData)>::empty());
            }
            Ok(c)
        },
        Option::Some(JsonValue::Obj(fs)) => Ok(copy_fields(fs)),
        Option::Some(_) => Err(wrong_type_error(name, "object")),
    }
}

impl NewSessionParametersWrapper {
    /// Reads a new-session body, keeping the wrapper's nesting.
    #[verifier::loop_isolation(false)]
    pub fn from_json(data: &JsonValue) -> (r: WebDriverResult<NewSessionParametersWrapper>)
        ensures
            match r {
                Ok(p) => new_session_parameters_of(data@) == Ok::<
                    NewSessionParametersData,
                    ErrorData,
                >(p@),
                Err(e) => new_session_parameters_of(data@) == Err::<
                    NewSessionParametersData,
                    ErrorData,
                >(e@),
            },
    {
        broadcast use group_json_model_axioms, lemma_capabilities_list_model_len, lemma_capabilities_list_model_index;

        match data.get_field("capabilities") {
            Option::Some(caps @ JsonValue::Obj(_)) => {
                let always_match = match decode_capabilities_object(caps, "alwaysMatch") {
                    Ok(c) => c,
                    Err(e) => return Err(e),
                };
                let first_match: Vec<Capabilities> = match caps.get_field("firstMatch") {
                    Option::None => {
                        let v: Vec<Capabilities> = Vec::new();
                        proof {
                            assert(capabilities_list_model(v@) =~= Seq::<
                                Seq<(Seq<char>, JsonData)>,
                            >::empty());
                        }
                        v
                    },
                    Option::Some(JsonValue::Arr(items)) => {
                        let ghost ms = items_model(items@);
                        let mut out: Vec<Capabilities> = Vec::new();
                        let mut j: usize = 0;
                        while j < items.len()
                            invariant
                                j <= items@.len(),
                                out@.len() == j,
                                forall|k: int| 0 <= k < j ==> (#[trigger] ms[k]) is Obj,
                                forall|k: int|
                                    0 <= k < j ==> #[trigger] fields_model(out@[k]@)
                                        == ms[k]->Obj_fields,
                            decreases items@.len() - j,
                        {
                            match &items[j] {
                                JsonValue::Obj(fs) => {
                                    out.push(copy_fields(fs));
                                },
                                _ => {
                                    proof {
                                        assert(!(ms[j as int] is Obj));
                                    }
                                    return Err(
                                        wrong_type_error("firstMatch", "array of objects"),
                                    );
                                },
                            }
                            j += 1;
                        }
                        proof {
                            let expected = capabilities_list_of(
                                json_get(caps@, "firstMatch"@),
                            )->Ok_0;
                            assert(capabilities_list_model(out@) =~= expected);
                        }
                        out
                    },
                    Option::Some(_) => {
                        return Err(wrong_type_error("firstMatch", "array"));
                    },
                };
                Ok(
                    NewSessionParametersWrapper::Spec(
                        SpecNewSessionParametersWrapper {
                            capabilities: SpecNewSessionParameters { always_match, first_match },
                        },
                    ),
                )
            },
            Option::Some(_) => Err(wrong_type_error("capabilities", "object")),
            Option::None => {
                let desired = match decode_capabilities_object(data, "desiredCapabilities") {
                    Ok(c) => c,
                    Err(e) => return Err(e),
                };
                let required = match decode_capabilities_object(data, "requiredCapabilities") {
                    Ok(c) => c,
                    Err(e) => return Err(e),
                };
                Ok(
                    NewSessionParametersWrapper::Legacy(
                        LegacyNewSessionParameters { desired, required },
                    ),
                )
            },
        }
    }
}

impl NewSessionParameters {
    /// Strips the wrapper's nesting, keeping what was decoded.
    pub fn from_wrapper(wrapper: NewSessionParametersWrapper) -> (r: NewSessionParameters)
        ensures
            r@ == wrapper@,
    {
        match wrapper {
            NewSessionParametersWrapper::Spec(w) => NewSessionParameters::Spec(w.capabilities),
            NewSessionParametersWrapper::Legacy(l) => NewSessionParameters::Legacy(l),
        }
    }
}

/// The named URL captures of a matched route, as the external router hands
/// them over.
#[derive(Debug, Clone, PartialEq)]
pub struct Captures {
    pub params: Vec<(String, String)>,
}

/// The models of a list of named captures.
pub open spec fn captures_model(params: Seq<(String, String)>) -> Seq<(Seq<char>, Seq<char>)> {
    Seq::new(params.len(), |i: int| (params[i].0@, params[i].1@))
}

pub broadcast proof fn lemma_captures_model_len(params: Seq<(String, String)>)
    ensures
        #[trigger] captures_model(params).len() == params.len(),
{
}

pub broadcast proof fn lemma_captures_model_index(params: Seq<(String, String)>, i: int)
    requires
        0 <= i < params.len(),
    ensures
        #[trigger] captures_model(params)[i] == (params[i].0@, params[i].1@),
{
}

impl View for Captures {
    type V = Seq<(Seq<char>, Seq<char>)>;

    open spec fn view(&self) -> Seq<(Seq<char>, Seq<char>)> {
        captures_model(self.params@)
    }
}

/// The first value bound to `key` among `params` at or after position `i`.
pub open spec fn capture_lookup_from(
    params: Seq<(Seq<char>, Seq<char>)>,
    key: Seq<char>,
    i: int,
) -> Option<Seq<char>>
    decreases params.len() - i,
{
    if i < 0 || i >= params.len() {
        None
    } else if params[i].0 == key {
        Some(params[i].1)
    } else {
        capture_lookup_from(params, key, i + 1)
    }
}

/// The first value bound to `key` among `params`, if any.
pub open spec fn capture_lookup(params: Seq<(Seq<char>, Seq<char>)>, key: Seq<char>) -> Option<
    Seq<char>,
> {
    capture_lookup_from(params, key, 0)
}

impl Captures {
    /// No captures.
    pub fn new() -> (r: Captures)
        ensures
            r@ =~= Seq::<(Seq<char>, Seq<char>)>::empty(),
    {
        Captures { params: Vec::new() }
    }

    /// Adds the capture `key` with value `value`.
    pub fn insert(&mut self, key: &str, value: &str)
        ensures
            final(self)@ =~= old(self)@.push((key@, value@)),
    {
        proof {
            broadcast use lemma_captures_model_len, lemma_captures_model_index;
        }
        self.params.push((String::from_str(key), String::from_str(value)));
        proof {
            assert(self@ =~= old(self)@.push((key@, value@)));
        }
    }

    /// The value of the capture `key`, if the route bound one.
    #[verifier::loop_isolation(false)]
    pub fn name<'a>(&'a self, key: &str) -> (r: Option<&'a str>)
        ensures
            match r {
                Some(v) => capture_lookup(self@, key@) == Some(v@),
                None => capture_lookup(self@, key@) is None,
            },
    {
        broadcast use lemma_captures_model_len, lemma_captures_model_index;

        let ghost all = self@;
        let mut j: usize = 0;
        while j < self.params.len()
            invariant
                j <= self.params@.len(),
                capture_lookup(all, key@) == capture_lookup_from(all, key@, j as int),
            decreases self.params@.len() - j,
        {
            let p = &self.params[j];
            if str_eq(p.0.as_str(), key) {
                return Some(p.1.as_str());
            }
            j += 1;
        }
        None
    }
}

/// What an extension command must offer: the JSON the message form carries
/// for it, if any.
pub trait WebDriverExtensionCommand: Clone + Send + PartialEq {
    fn parameters_json(&self) -> Option<JsonValue>;
}

/// The extension command of servers that define no extensions; no value of
/// a decoded message ever carries it.
#[derive(Debug, Clone, PartialEq)]
pub struct VoidWebDriverExtensionCommand;

impl WebDriverExtensionCommand for VoidWebDriverExtensionCommand {
    fn parameters_json(&self) -> Option<JsonValue> {
        None
    }
}

/// A single typed operation requested of the automation backend. Exactly
/// one variant is active per decoded message.
#[derive(Debug, PartialEq)]
pub enum WebDriverCommand<T: WebDriverExtensionCommand> {
    NewSession(NewSessionParameters),
    DeleteSession,
    Get(GetParameters),
    GetCurrentUrl,
    GoBack,
    GoForward,
    Refresh,
    GetTitle,
    GetPageSource,
    GetWindowHandle,
    GetWindowHandles,
    CloseWindow,
    GetWindowRect,
    SetWindowRect(WindowRectParameters),
    MaximizeWindow,
    SwitchToWindow(SwitchToWindowParameters),
    SwitchToFrame(SwitchToFrameParameters),
    SwitchToParentFrame,
    FindElement(LocatorParameters),
    FindElements(LocatorParameters),
    FindElementElement(WebElement, LocatorParameters),
    FindElementElements(WebElement, LocatorParameters),
    GetActiveElement,
    IsDisplayed(WebElement),
    IsSelected(WebElement),
    GetElementAttribute(WebElement, String),
    GetElementProperty(WebElement, String),
    GetCSSValue(WebElement, String),
    GetElementText(WebElement),
    GetElementTagName(WebElement),
    GetElementRect(WebElement),
    IsEnabled(WebElement),
    ExecuteScript(JavascriptCommandParameters),
    ExecuteAsyncScript(JavascriptCommandParameters),
    GetCookies,
    GetNamedCookie(String),
    AddCookie(AddCookieParameters),
    DeleteCookies,
    DeleteCookie(String),
    GetTimeouts,
    SetTimeouts(TimeoutsParameters),
    ElementClick(WebElement),
    ElementTap(WebElement),
    ElementClear(WebElement),
    ElementSendKeys(WebElement, SendKeysParameters),
    PerformActions(ActionsParameters),
    ReleaseActions,
    DismissAlert,
    AcceptAlert,
    GetAlertText,
    SendAlertText(SendKeysParameters),
    TakeScreenshot,
    TakeElementScreenshot(TakeScreenshotParameters),
    Status,
    Extension(T),
}

/// What an extension route must offer: a decoder that receives the same
/// captures and decoded body the fixed routes receive, and yields an
/// extension command. This is the dispatcher's sole extensibility seam.
pub trait WebDriverExtensionRoute: Clone + Send + PartialEq {
    type Command: WebDriverExtensionCommand;

    fn command(&self, params: &Captures, body: &JsonValue) -> WebDriverResult<
        WebDriverCommand<Self::Command>,
    >;
}

/// The extension route of servers that define no extensions.
#[derive(Debug, Clone, PartialEq)]
pub struct VoidWebDriverExtensionRoute;

impl WebDriverExtensionRoute for VoidWebDriverExtensionRoute {
    type Command = VoidWebDriverExtensionCommand;

    fn command(&self, _params: &Captures, _body: &JsonValue) -> WebDriverResult<
        WebDriverCommand<VoidWebDriverExtensionCommand>,
    > {
        Err(
            WebDriverError::new(
                ErrorStatus::UnknownError,
                String::from_str("No extensions implemented"),
            ),
        )
    }
}

/// Which command an HTTP request maps to, as the external router names it.
#[derive(Debug, Clone, PartialEq)]
pub enum Route<U: WebDriverExtensionRoute> {
    NewSession,
    DeleteSession,
    Get,
    GetCurrentUrl,
    GoBack,
    GoForward,
    Refresh,
    GetTitle,
    GetPageSource,
    GetWindowHandle,
    GetWindowHandles,
    CloseWindow,
    GetTimeouts,
    SetTimeouts,
    GetWindowRect,
    GetWindowPosition,
    GetWindowSize,
    SetWindowRect,
    SetWindowPosition,
    SetWindowSize,
    MaximizeWindow,
    SwitchToWindow,
    SwitchToFrame,
    SwitchToParentFrame,
    FindElement,
    FindElements,
    FindElementElement,
    FindElementElements,
    GetActiveElement,
    IsDisplayed,
    IsSelected,
    GetElementAttribute,
    GetElementProperty,
    GetCSSValue,
    GetElementText,
    GetElementTagName,
    GetElementRect,
    IsEnabled,
    ElementClick,
    ElementTap,
    ElementClear,
    ElementSendKeys,
    ExecuteScript,
    ExecuteAsyncScript,
    GetCookies,
    GetNamedCookie,
    AddCookie,
    DeleteCookies,
    DeleteCookie,
    PerformActions,
    ReleaseActions,
    DismissAlert,
    AcceptAlert,
    GetAlertText,
    SendAlertText,
    TakeScreenshot,
    TakeElementScreenshot,
    Status,
    Extension(U),
}

/// The model of a decoded command.
pub enum CmdData {
    NewSession { p: NewSessionParametersData },
    DeleteSession,
    Get { url: Seq<char> },
    GetCurrentUrl,
    GoBack,
    GoForward,
    Refresh,
    GetTitle,
    GetPageSource,
    GetWindowHandle,
    GetWindowHandles,
    CloseWindow,
    GetWindowRect,
    SetWindowRect { p: WindowRectParameters },
    MaximizeWindow,
    SwitchToWindow { handle: Seq<char> },
    SwitchToFrame { id: Option<FrameIdData> },
    SwitchToParentFrame,
    FindElement { using: LocatorStrategy, value: Seq<char> },
    FindElements { using: LocatorStrategy, value: Seq<char> },
    FindElementElement { element: Seq<char>, using: LocatorStrategy, value: Seq<char> },
    FindElementElements { element: Seq<char>, using: LocatorStrategy, value: Seq<char> },
    GetActiveElement,
    IsDisplayed { element: Seq<char> },
    IsSelected { element: Seq<char> },
    GetElementAttribute { element: Seq<char>, name: Seq<char> },
    GetElementProperty { element: Seq<char>, name: Seq<char> },
    GetCSSValue { element: Seq<char>, name: Seq<char> },
    GetElementText { element: Seq<char> },
    GetElementTagName { element: Seq<char> },
    GetElementRect { element: Seq<char> },
    IsEnabled { element: Seq<char> },
    ExecuteScript { script: Seq<char>, args: Option<Seq<JsonData>> },
    ExecuteAsyncScript { script: Seq<char>, args: Option<Seq<JsonData>> },
    GetCookies,
    GetNamedCookie { name: Seq<char> },
    AddCookie { c: CookieData },
    DeleteCookies,
    DeleteCookie { name: Seq<char> },
    GetTimeouts,
    SetTimeouts { p: TimeoutsParameters },
    ElementClick { element: Seq<char> },
    ElementTap { element: Seq<char> },
    ElementClear { element: Seq<char> },
    ElementSendKeys { element: Seq<char>, text: Seq<char> },
    PerformActions { actions: Seq<ActionSequenceData> },
    ReleaseActions,
    DismissAlert,
    AcceptAlert,
    GetAlertText,
    SendAlertText { text: Seq<char> },
    TakeScreenshot,
    TakeElementScreenshot { element: Option<Seq<char>> },
    Status,
    Extension,
}

/// The model of a command value.
pub open spec fn cmd_view<T: WebDriverExtensionCommand>(c: &WebDriverCommand<T>) -> CmdData {
    match c {
        WebDriverCommand::NewSession(p) => CmdData::NewSession { p: p@ },
        WebDriverCommand::DeleteSession => CmdData::DeleteSession,
        WebDriverCommand::Get(p) => CmdData::Get { url: p@ },
        WebDriverCommand::GetCurrentUrl => CmdData::GetCurrentUrl,
        WebDriverCommand::GoBack => CmdData::GoBack,
        WebDriverCommand::GoForward => CmdData::GoForward,
        WebDriverCommand::Refresh => CmdData::Refresh,
        WebDriverCommand::GetTitle => CmdData::GetTitle,
        WebDriverCommand::GetPageSource => CmdData::GetPageSource,
        WebDriverCommand::GetWindowHandle => CmdData::GetWindowHandle,
        WebDriverCommand::GetWindowHandles => CmdData::GetWindowHandles,
        WebDriverCommand::CloseWindow => CmdData::CloseWindow,
        WebDriverCommand::GetWindowRect => CmdData::GetWindowRect,
        WebDriverCommand::SetWindowRect(p) => CmdData::SetWindowRect { p: *p },
        WebDriverCommand::MaximizeWindow => CmdData::MaximizeWindow,
        WebDriverCommand::SwitchToWindow(p) => CmdData::SwitchToWindow { handle: p@ },
        WebDriverCommand::SwitchToFrame(p) => CmdData::SwitchToFrame { id: p@ },
        WebDriverCommand::SwitchToParentFrame => CmdData::SwitchToParentFrame,
        WebDriverCommand::FindElement(p) => CmdData::FindElement {
            using: p@.0,
            value: p@.1,
        },
        WebDriverCommand::FindElements(p) => CmdData::FindElements {
            using: p@.0,
            value: p@.1,
        },
        WebDriverCommand::FindElementElement(e, p) => CmdData::FindElementElement {
            element: e@,
            using: p@.0,
            value: p@.1,
        },
        WebDriverCommand::FindElementElements(e, p) => CmdData::FindElementElements {
            element: e@,
            using: p@.0,
            value: p@.1,
        },
        WebDriverCommand::GetActiveElement => CmdData::GetActiveElement,
        WebDriverCommand::IsDisplayed(e) => CmdData::IsDisplayed { element: e@ },
        WebDriverCommand::IsSelected(e) => CmdData::IsSelected { element: e@ },
        WebDriverCommand::GetElementAttribute(e, n) => CmdData::GetElementAttribute {
            element: e@,
            name: n@,
        },
        WebDriverCommand::GetElementProperty(e, n) => CmdData::GetElementProperty {
            element: e@,
            name: n@,
        },
        WebDriverCommand::GetCSSValue(e, n) => CmdData::GetCSSValue { element: e@, name: n@ },
        WebDriverCommand::GetElementText(e) => CmdData::GetElementText { element: e@ },
        WebDriverCommand::GetElementTagName(e) => CmdData::GetElementTagName { element: e@ },
        WebDriverCommand::GetElementRect(e) => CmdData::GetElementRect { element: e@ },
        WebDriverCommand::IsEnabled(e) => CmdData::IsEnabled { element: e@ },
        WebDriverCommand::ExecuteScript(p) => CmdData::ExecuteScript {
            script: p@.0,
            args: p@.1,
        },
        WebDriverCommand::ExecuteAsyncScript(p) => CmdData::ExecuteAsyncScript {
            script: p@.0,
            args: p@.1,
        },
        WebDriverCommand::GetCookies => CmdData::GetCookies,
        WebDriverCommand::GetNamedCookie(n) => CmdData::GetNamedCookie { name: n@ },
        WebDriverCommand::AddCookie(p) => CmdData::AddCookie { c: p@ },
        WebDriverCommand::DeleteCookies => CmdData::DeleteCookies,
        WebDriverCommand::DeleteCookie(n) => CmdData::DeleteCookie { name: n@ },
        WebDriverCommand::GetTimeouts => CmdData::GetTimeouts,
        WebDriverCommand::SetTimeouts(p) => CmdData::SetTimeouts { p: *p },
        WebDriverCommand::ElementClick(e) => CmdData::ElementClick { element: e@ },
        WebDriverCommand::ElementTap(e) => CmdData::ElementTap { element: e@ },
        WebDriverCommand::ElementClear(e) => CmdData::ElementClear { element: e@ },
        WebDriverCommand::ElementSendKeys(e, p) => CmdData::ElementSendKeys {
            element: e@,
            text: p@,
        },
        WebDriverCommand::PerformActions(p) => CmdData::PerformActions { actions: p@ },
        WebDriverCommand::ReleaseActions => CmdData::ReleaseActions,
        WebDriverCommand::DismissAlert => CmdData::DismissAlert,
        WebDriverCommand::AcceptAlert => CmdData::AcceptAlert,
        WebDriverCommand::GetAlertText => CmdData::GetAlertText,
        WebDriverCommand::SendAlertText(p) => CmdData::SendAlertText { text: p@ },
        WebDriverCommand::TakeScreenshot => CmdData::TakeScreenshot,
        WebDriverCommand::TakeElementScreenshot(p) => CmdData::TakeElementScreenshot {
            element: p@,
        },
        WebDriverCommand::Status => CmdData::Status,
        WebDriverCommand::Extension(_) => CmdData::Extension,
    }
}

/// The model of a decoded message.
pub struct MessageData {
    pub session_id: Option<Seq<char>>,
    pub command: CmdData,
}

/// A decoded message: the session the route addressed, if any, and the
/// command it requested.
#[derive(PartialEq)]
pub struct WebDriverMessage<U: WebDriverExtensionRoute = VoidWebDriverExtensionRoute> {
    pub session_id: Option<String>,
    pub command: WebDriverCommand<U::Command>,
}

impl<U: WebDriverExtensionRoute> View for WebDriverMessage<U> {
    type V = MessageData;

    open spec fn view(&self) -> MessageData {
        MessageData {
            session_id: match self.session_id {
                Option::Some(s) => Some(s@),
                Option::None => None,
            },
            command: cmd_view(&self.command),
        }
    }
}

/// The decoded body: absent bodies decode to `null` without a parse; a
/// present body must parse and be an object, a syntax error carrying its
/// position as a separate diagnostic.
pub open spec fn body_of(raw: Seq<char>, requires_body: bool) -> Result<JsonData, ErrorData> {
    if !requires_body {
        Ok(JsonData::Null)
    } else {
        match crate::json::json_of(raw) {
            Ok(d) => if d is Obj {
                Ok(d)
            } else {
                Err(invalid_arg("Body was not a JSON Object"@))
            },
            Err(pos) => Err(
                ErrorData {
                    kind: ErrorStatus::InvalidArgument,
                    message: "Failed to decode request as JSON: "@ + raw,
                    stack: Some(
                        "Syntax error at :"@ + crate::json::decimal_of(pos.0) + ":"@
                            + crate::json::decimal_of(pos.1),
                    ),
                },
            ),
        }
    }
}

/// The session id a route's captures carry, if any.
pub open spec fn session_id_of(params: Seq<(Seq<char>, Seq<char>)>) -> Option<Seq<char>> {
    capture_lookup(params, "sessionId"@)
}

/// The command a route and its inputs decode to, the body already decoded.
/// The extension arm is never consulted.
pub open spec fn command_spec<U: WebDriverExtensionRoute>(
    route: Route<U>,
    params: Seq<(Seq<char>, Seq<char>)>,
    body: JsonData,
) -> Result<CmdData, ErrorData> {
    match route {
        Route::NewSession => match new_session_parameters_of(body) {
            Ok(p) => Ok(CmdData::NewSession { p }),
            Err(e) => Err(e),
        },
        Route::DeleteSession => Ok(CmdData::DeleteSession),
        Route::Get => match get_parameters_of(body) {
            Ok(url) => Ok(CmdData::Get { url }),
            Err(e) => Err(e),
        },
        Route::GetCurrentUrl => Ok(CmdData::GetCurrentUrl),
        Route::GoBack => Ok(CmdData::GoBack),
        Route::GoForward => Ok(CmdData::GoForward),
        Route::Refresh => Ok(CmdData::Refresh),
        Route::GetTitle => Ok(CmdData::GetTitle),
        Route::GetPageSource => Ok(CmdData::GetPageSource),
        Route::GetWindowHandle => Ok(CmdData::GetWindowHandle),
        Route::GetWindowHandles => Ok(CmdData::GetWindowHandles),
        Route::CloseWindow => Ok(CmdData::CloseWindow),
        Route::GetTimeouts => Ok(CmdData::GetTimeouts),
        Route::SetTimeouts => match timeouts_parameters_of(body) {
            Ok(p) => Ok(CmdData::SetTimeouts { p }),
            Err(e) => Err(e),
        },
        Route::GetWindowRect => Ok(CmdData::GetWindowRect),
        Route::GetWindowPosition => Ok(CmdData::GetWindowRect),
        Route::GetWindowSize => Ok(CmdData::GetWindowRect),
        Route::SetWindowRect => match window_rect_parameters_of(body) {
            Ok(p) => Ok(CmdData::SetWindowRect { p }),
            Err(e) => Err(e),
        },
        Route::SetWindowPosition => match window_rect_parameters_of(body) {
            Ok(p) => Ok(CmdData::SetWindowRect { p }),
            Err(e) => Err(e),
        },
        Route::SetWindowSize => match window_rect_parameters_of(body) {
            Ok(p) => Ok(CmdData::SetWindowRect { p }),
            Err(e) => Err(e),
        },
        Route::MaximizeWindow => Ok(CmdData::MaximizeWindow),
        Route::SwitchToWindow => match switch_to_window_parameters_of(body) {
            Ok(handle) => Ok(CmdData::SwitchToWindow { handle }),
            Err(e) => Err(e),
        },
        Route::SwitchToFrame => match switch_to_frame_parameters_of(body) {
            Ok(id) => Ok(CmdData::SwitchToFrame { id }),
            Err(e) => Err(e),
        },
        Route::SwitchToParentFrame => Ok(CmdData::SwitchToParentFrame),
        Route::FindElement => match locator_parameters_of(body) {
            Ok(p) => Ok(CmdData::FindElement { using: p.0, value: p.1 }),
            Err(e) => Err(e),
        },
        Route::FindElements => match locator_parameters_of(body) {
            Ok(p) => Ok(CmdData::FindElements { using: p.0, value: p.1 }),
            Err(e) => Err(e),
        },
        Route::FindElementElement => match capture_lookup(params, "elementId"@) {
            Option::None => Err(invalid_arg("Missing elementId parameter"@)),
            Option::Some(element) => match locator_parameters_of(body) {
                Ok(p) => Ok(CmdData::FindElementElement { element, using: p.0, value: p.1 }),
                Err(e) => Err(e),
            },
        },
        Route::FindElementElements => match capture_lookup(params, "elementId"@) {
            Option::None => Err(invalid_arg("Missing elementId parameter"@)),
            Option::Some(element) => match locator_parameters_of(body) {
                Ok(p) => Ok(CmdData::FindElementElements { element, using: p.0, value: p.1 }),
                Err(e) => Err(e),
            },
        },
        Route::GetActiveElement => Ok(CmdData::GetActiveElement),
        Route::IsDisplayed => match capture_lookup(params, "elementId"@) {
            Option::None => Err(invalid_arg("Missing elementId parameter"@)),
            Option::Some(element) => Ok(CmdData::IsDisplayed { element }),
        },
        Route::IsSelected => match capture_lookup(params, "elementId"@) {
            Option::None => Err(invalid_arg("Missing elementId parameter"@)),
            Option::Some(element) => Ok(CmdData::IsSelected { element }),
        },
        Route::GetElementAttribute => match capture_lookup(params, "elementId"@) {
            Option::None => Err(invalid_arg("Missing elementId parameter"@)),
            Option::Some(element) => match capture_lookup(params, "name"@) {
                Option::None => Err(invalid_arg("Missing name parameter"@)),
                Option::Some(name) => Ok(CmdData::GetElementAttribute { element, name }),
            },
        },
        Route::GetElementProperty => match capture_lookup(params, "elementId"@) {
            Option::None => Err(invalid_arg("Missing elementId parameter"@)),
            Option::Some(element) => match capture_lookup(params, "name"@) {
                Option::None => Err(invalid_arg("Missing name parameter"@)),
                Option::Some(name) => Ok(CmdData::GetElementProperty { element, name }),
            },
        },
        Route::GetCSSValue => match capture_lookup(params, "elementId"@) {
            Option::None => Err(invalid_arg("Missing elementId parameter"@)),
            Option::Some(element) => match capture_lookup(params, "propertyName"@) {
                Option::None => Err(invalid_arg("Missing propertyName parameter"@)),
                Option::Some(name) => Ok(CmdData::GetCSSValue { element, name }),
            },
        },
        Route::GetElementText => match capture_lookup(params, "elementId"@) {
            Option::None => Err(invalid_arg("Missing elementId parameter"@)),
            Option::Some(element) => Ok(CmdData::GetElementText { element }),
        },
        Route::GetElementTagName => match capture_lookup(params, "elementId"@) {
            Option::None => Err(invalid_arg("Missing elementId parameter"@)),
            Option::Some(element) => Ok(CmdData::GetElementTagName { element }),
        },
        Route::GetElementRect => match capture_lookup(params, "elementId"@) {
            Option::None => Err(invalid_arg("Missing elementId parameter"@)),
            Option::Some(element) => Ok(CmdData::GetElementRect { element }),
        },
        Route::IsEnabled => match capture_lookup(params, "elementId"@) {
            Option::None => Err(invalid_arg("Missing elementId parameter"@)),
            Option::Some(element) => Ok(CmdData::IsEnabled { element }),
        },
        Route::ElementClick => match capture_lookup(params, "elementId"@) {
            Option::None => Err(invalid_arg("Missing elementId parameter"@)),
            Option::Some(element) => Ok(CmdData::ElementClick { element }),
        },
        Route::ElementTap => match capture_lookup(params, "elementId"@) {
            Option::None => Err(invalid_arg("Missing elementId parameter"@)),
            Option::Some(element) => Ok(CmdData::ElementTap { element }),
        },
        Route::ElementClear => match capture_lookup(params, "elementId"@) {
            Option::None => Err(invalid_arg("Missing elementId parameter"@)),
            Option::Some(element) => Ok(CmdData::ElementClear { element }),
        },
        Route::ElementSendKeys => match capture_lookup(params, "elementId"@) {
            Option::None => Err(invalid_arg("Missing elementId parameter"@)),
            Option::Some(element) => match send_keys_parameters_of(body) {
                Ok(text) => Ok(CmdData::ElementSendKeys { element, text }),
                Err(e) => Err(e),
            },
        },
        Route::ExecuteScript => match javascript_command_parameters_of(body) {
            Ok(p) => Ok(CmdData::ExecuteScript { script: p.0, args: p.1 }),
            Err(e) => Err(e),
        },
        Route::ExecuteAsyncScript => match javascript_command_parameters_of(body) {
            Ok(p) => Ok(CmdData::ExecuteAsyncScript { script: p.0, args: p.1 }),
            Err(e) => Err(e),
        },
        Route::GetCookies => Ok(CmdData::GetCookies),
        Route::GetNamedCookie => match capture_lookup(params, "name"@) {
            Option::None => Err(invalid_arg("Missing 'name' parameter"@)),
            Option::Some(name) => Ok(CmdData::GetNamedCookie { name }),
        },
        Route::AddCookie => match add_cookie_parameters_of(body) {
            Ok(c) => Ok(CmdData::AddCookie { c }),
            Err(e) => Err(e),
        },
        Route::DeleteCookies => Ok(CmdData::DeleteCookies),
        Route::DeleteCookie => match capture_lookup(params, "name"@) {
            Option::None => Err(invalid_arg("Missing name parameter"@)),
            Option::Some(name) => Ok(CmdData::DeleteCookie { name }),
        },
        Route::PerformActions => match actions_parameters_of(body) {
            Ok(actions) => Ok(CmdData::PerformActions { actions }),
            Err(e) => Err(e),
        },
        Route::ReleaseActions => Ok(CmdData::ReleaseActions),
        Route::DismissAlert => Ok(CmdData::DismissAlert),
        Route::AcceptAlert => Ok(CmdData::AcceptAlert),
        Route::GetAlertText => Ok(CmdData::GetAlertText),
        Route::SendAlertText => match send_keys_parameters_of(body) {
            Ok(text) => Ok(CmdData::SendAlertText { text }),
            Err(e) => Err(e),
        },
        Route::TakeScreenshot => Ok(CmdData::TakeScreenshot),
        Route::TakeElementScreenshot => match take_screenshot_parameters_of(body) {
            Ok(element) => Ok(CmdData::TakeElementScreenshot { element }),
            Err(e) => Err(e),
        },
        Route::Status => Ok(CmdData::Status),
        Route::Extension(_) => Ok(CmdData::Extension),
    }
}

/// What decoding an HTTP request yields for every fixed route: the body's
/// verdict first, then the route's own decoding; `None` for extension
/// routes, whose decoder the caller supplies.
pub open spec fn from_http_spec<U: WebDriverExtensionRoute>(
    route: Route<U>,
    params: Seq<(Seq<char>, Seq<char>)>,
    raw_body: Seq<char>,
    requires_body: bool,
) -> Option<Result<MessageData, ErrorData>> {
    match route {
        Route::Extension(_) => None,
        _ => Some(
            match body_of(raw_body, requires_body) {
                Err(e) => Err(e),
                Ok(body) => match command_spec(route, params, body) {
                    Err(e) => Err(e),
                    Ok(command) => Ok(
                        MessageData { session_id: session_id_of(params), command },
                    ),
                },
            },
        ),
    }
}

/// Reads the body: no parse when no body is required; otherwise the text
/// must parse as JSON with an object at the top.
fn decode_body(body: &str, requires_body: bool) -> (r: WebDriverResult<JsonValue>)
    ensures
        match r {
            Ok(v) => body_of(body@, requires_body) == Ok::<JsonData, ErrorData>(v@),
            Err(e) => body_of(body@, requires_body) == Err::<JsonData, ErrorData>(e@),
        },
{
    if !requires_body {
        return Ok(JsonValue::Null);
    }
    match crate::json::parse_json(body) {
        Ok(v) => match v {
            JsonValue::Obj(fields) => Ok(JsonValue::Obj(fields)),
            _ => Err(invalid_error("Body was not a JSON Object")),
        },
        Err(pos) => {
            let msg = String::from_str("Failed to decode request as JSON: ").concat(body);
            let stack = String::from_str("Syntax error at :").concat(
                crate::json::u64_to_string(pos.0).as_str(),
            ).concat(":").concat(crate::json::u64_to_string(pos.1).as_str());
            Err(WebDriverError::new_with_stack(ErrorStatus::InvalidArgument, msg, stack))
        },
    }
}

/// Reads a capture that the route must have bound, with the error message
/// its absence carries.
fn required_capture(params: &Captures, key: &str, err_msg: &str) -> (r: WebDriverResult<String>)
    ensures
        match r {
            Ok(s) => capture_lookup(params@, key@) == Some(s@),
            Err(e) => capture_lookup(params@, key@) is None && e@ == invalid_arg(err_msg@),
        },
{
    match params.name(key) {
        Some(v) => Ok(String::from_str(v)),
        None => Err(invalid_error(err_msg)),
    }
}

/// Reads the element a route is scoped to.
fn element_capture(params: &Captures) -> (r: WebDriverResult<WebElement>)
    ensures
        match r {
            Ok(w) => capture_lookup(params@, "elementId"@) == Some(w@),
            Err(e) => capture_lookup(params@, "elementId"@) is None && e@ == invalid_arg(
                "Missing elementId parameter"@,
            ),
        },
{
    match required_capture(params, "elementId", "Missing elementId parameter") {
        Ok(id) => Ok(WebElement::new(id)),
        Err(e) => Err(e),
    }
}

impl<U: WebDriverExtensionRoute> WebDriverMessage<U> {
    pub fn new(session_id: Option<String>, command: WebDriverCommand<U::Command>) -> (r:
        WebDriverMessage<U>)
        ensures
            r.session_id == session_id,
            r.command == command,
    {
        WebDriverMessage { session_id, command }
    }

    /// The session id among the captures, if the route bound one.
    fn get_session_id(params: &Captures) -> (r: Option<String>)
        ensures
            match r {
                Some(s) => session_id_of(params@) == Some(s@),
                None => session_id_of(params@) is None,
            },
    {
        match params.name("sessionId") {
            Some(v) => Some(String::from_str(v)),
            None => None,
        }
    }

    /// Decodes a matched route, its URL captures and the raw body into a
    /// typed message: the session id is taken from the captures, the body
    /// is read once under the route's body policy, and the route's own
    /// decoder builds the command. Extension routes delegate to the
    /// caller-supplied decoder; for every fixed route the result is the
    /// one `from_http_spec` names.
    #[verifier::rlimit(100)]
    #[verifier::spinoff_prover]
    pub fn from_http(
        match_type: Route<U>,
        params: &Captures,
        raw_body: &str,
        requires_body: bool,
    ) -> (r: WebDriverResult<WebDriverMessage<U>>)
        ensures
            match from_http_spec(match_type, params@, raw_body@, requires_body) {
                Some(expected) => match r {
                    Ok(m) => expected == Ok::<MessageData, ErrorData>(m@),
                    Err(e) => expected == Err::<MessageData, ErrorData>(e@),
                },
                None => r matches Ok(m) ==> (match m.session_id {
                    Option::Some(s) => session_id_of(params@) == Some(s@),
                    Option::None => session_id_of(params@) is None,
                }),
            },
    {
        let session_id = WebDriverMessage::<U>::get_session_id(params);
        let body_data = match decode_body(raw_body, requires_body) {
            Ok(v) => v,
            Err(e) => return Err(e),
        };
        let command = match match_type {
            Route::NewSession => {
                match NewSessionParametersWrapper::from_json(&body_data) {
                    Ok(w) => WebDriverCommand::NewSession(NewSessionParameters::from_wrapper(w)),
                    Err(e) => return Err(e),
                }
            },
            Route::DeleteSession => WebDriverCommand::DeleteSession,
            Route::Get => match GetParameters::from_json(&body_data) {
                Ok(p) => WebDriverCommand::Get(p),
                Err(e) => return Err(e),
            },
            Route::GetCurrentUrl => WebDriverCommand::GetCurrentUrl,
            Route::GoBack => WebDriverCommand::GoBack,
            Route::GoForward => WebDriverCommand::GoForward,
            Route::Refresh => WebDriverCommand::Refresh,
            Route::GetTitle => WebDriverCommand::GetTitle,
            Route::GetPageSource => WebDriverCommand::GetPageSource,
            Route::GetWindowHandle => WebDriverCommand::GetWindowHandle,
            Route::GetWindowHandles => WebDriverCommand::GetWindowHandles,
            Route::CloseWindow => WebDriverCommand::CloseWindow,
            Route::GetTimeouts => WebDriverCommand::GetTimeouts,
            Route::SetTimeouts => match TimeoutsParameters::from_json(&body_data) {
                Ok(p) => WebDriverCommand::SetTimeouts(p),
                Err(e) => return Err(e),
            },
            Route::GetWindowRect => WebDriverCommand::GetWindowRect,
            Route::GetWindowPosition => WebDriverCommand::GetWindowRect,
            Route::GetWindowSize => WebDriverCommand::GetWindowRect,
            Route::SetWindowRect => match WindowRectParameters::from_json(&body_data) {
                Ok(p) => WebDriverCommand::SetWindowRect(p),
                Err(e) => return Err(e),
            },
            Route::SetWindowPosition => match WindowRectParameters::from_json(&body_data) {
                Ok(p) => WebDriverCommand::SetWindowRect(p),
                Err(e) => return Err(e),
            },
            Route::SetWindowSize => match WindowRectParameters::from_json(&body_data) {
                Ok(p) => WebDriverCommand::SetWindowRect(p),
                Err(e) => return Err(e),
            },
            Route::MaximizeWindow => WebDriverCommand::MaximizeWindow,
            Route::SwitchToWindow => match SwitchToWindowParameters::from_json(&body_data) {
                Ok(p) => WebDriverCommand::SwitchToWindow(p),
                Err(e) => return Err(e),
            },
            Route::SwitchToFrame => match SwitchToFrameParameters::from_json(&body_data) {
                Ok(p) => WebDriverCommand::SwitchToFrame(p),
                Err(e) => return Err(e),
            },
            Route::SwitchToParentFrame => WebDriverCommand::SwitchToParentFrame,
            Route::FindElement => match LocatorParameters::from_json(&body_data) {
                Ok(p) => WebDriverCommand::FindElement(p),
                Err(e) => return Err(e),
            },
            Route::FindElements => match LocatorParameters::from_json(&body_data) {
                Ok(p) => WebDriverCommand::FindElements(p),
                Err(e) => return Err(e),
            },
            Route::FindElementElement => {
                let element = match element_capture(params) {
                    Ok(w) => w,
                    Err(e) => return Err(e),
                };
                match LocatorParameters::from_json(&body_data) {
                    Ok(p) => WebDriverCommand::FindElementElement(element, p),
                    Err(e) => return Err(e),
                }
            },
            Route::FindElementElements => {
                let element = match element_capture(params) {
                    Ok(w) => w,
                    Err(e) => return Err(e),
                };
                match LocatorParameters::from_json(&body_data) {
                    Ok(p) => WebDriverCommand::FindElementElements(element, p),
                    Err(e) => return Err(e),
                }
            },
            Route::GetActiveElement => WebDriverCommand::GetActiveElement,
            Route::IsDisplayed => match element_capture(params) {
                Ok(w) => WebDriverCommand::IsDisplayed(w),
                Err(e) => return Err(e),
            },
            Route::IsSelected => match element_capture(params) {
                Ok(w) => WebDriverCommand::IsSelected(w),
                Err(e) => return Err(e),
            },
            Route::GetElementAttribute => {
                let element = match element_capture(params) {
                    Ok(w) => w,
                    Err(e) => return Err(e),
                };
                match required_capture(params, "name", "Missing name parameter") {
                    Ok(name) => WebDriverCommand::GetElementAttribute(element, name),
                    Err(e) => return Err(e),
                }
            },
            Route::GetElementProperty => {
                let element = match element_capture(params) {
                    Ok(w) => w,
                    Err(e) => return Err(e),
                };
                match required_capture(params, "name", "Missing name parameter") {
                    Ok(name) => WebDriverCommand::GetElementProperty(element, name),
                    Err(e) => return Err(e),
                }
            },
            Route::GetCSSValue => {
                let element = match element_capture(params) {
                    Ok(w) => w,
                    Err(e) => return Err(e),
                };
                match required_capture(params, "propertyName", "Missing propertyName parameter") {
                    Ok(name) => WebDriverCommand::GetCSSValue(element, name),
                    Err(e) => return Err(e),
                }
            },
            Route::GetElementText => match element_capture(params) {
                Ok(w) => WebDriverCommand::GetElementText(w),
                Err(e) => return Err(e),
            },
            Route::GetElementTagName => match element_capture(params) {
                Ok(w) => WebDriverCommand::GetElementTagName(w),
                Err(e) => return Err(e),
            },
            Route::GetElementRect => match element_capture(params) {
                Ok(w) => WebDriverCommand::GetElementRect(w),
                Err(e) => return Err(e),
            },
            Route::IsEnabled => match element_capture(params) {
                Ok(w) => WebDriverCommand::IsEnabled(w),
                Err(e) => return Err(e),
            },
            Route::ElementClick => match element_capture(params) {
                Ok(w) => WebDriverCommand::ElementClick(w),
                Err(e) => return Err(e),
            },
            Route::ElementTap => match element_capture(params) {
                Ok(w) => WebDriverCommand::ElementTap(w),
                Err(e) => return Err(e),
            },
            Route::ElementClear => match element_capture(params) {
                Ok(w) => WebDriverCommand::ElementClear(w),
                Err(e) => return Err(e),
            },
            Route::ElementSendKeys => {
                let element = match element_capture(params) {
                    Ok(w) => w,
                    Err(e) => return Err(e),
                };
                match SendKeysParameters::from_json(&body_data) {
                    Ok(p) => WebDriverCommand::ElementSendKeys(element, p),
                    Err(e) => return Err(e),
                }
            },
            Route::ExecuteScript => match JavascriptCommandParameters::from_json(&body_data) {
                Ok(p) => WebDriverCommand::ExecuteScript(p),
                Err(e) => return Err(e),
            },
            Route::ExecuteAsyncScript => match JavascriptCommandParameters::from_json(
                &body_data,
            ) {
                Ok(p) => WebDriverCommand::ExecuteAsyncScript(p),
                Err(e) => return Err(e),
            },
            Route::GetCookies => WebDriverCommand::GetCookies,
            Route::GetNamedCookie => match required_capture(
                params,
                "name",
                "Missing 'name' parameter",
            ) {
                Ok(name) => WebDriverCommand::GetNamedCookie(name),
                Err(e) => return Err(e),
            },
            Route::AddCookie => match AddCookieParametersWrapper::from_json(&body_data) {
                Ok(w) => WebDriverCommand::AddCookie(w.cookie),
                Err(e) => return Err(e),
            },
            Route::DeleteCookies => WebDriverCommand::DeleteCookies,
            Route::DeleteCookie => match required_capture(
                params,
                "name",
                "Missing name parameter",
            ) {
                Ok(name) => WebDriverCommand::DeleteCookie(name),
                Err(e) => return Err(e),
            },
            Route::PerformActions => match ActionsParameters::from_json(&body_data) {
                Ok(p) => WebDriverCommand::PerformActions(p),
                Err(e) => return Err(e),
            },
            Route::ReleaseActions => WebDriverCommand::ReleaseActions,
            Route::DismissAlert => WebDriverCommand::DismissAlert,
            Route::AcceptAlert => WebDriverCommand::AcceptAlert,
            Route::GetAlertText => WebDriverCommand::GetAlertText,
            Route::SendAlertText => match SendKeysParameters::from_json(&body_data) {
                Ok(p) => WebDriverCommand::SendAlertText(p),
                Err(e) => return Err(e),
            },
            Route::TakeScreenshot => WebDriverCommand::TakeScreenshot,
            Route::TakeElementScreenshot => match TakeScreenshotParameters::from_json(
                &body_data,
            ) {
                Ok(p) => WebDriverCommand::TakeElementScreenshot(p),
                Err(e) => return Err(e),
            },
            Route::Status => WebDriverCommand::Status,
            Route::Extension(ref extension) => match extension.command(params, &body_data) {
                Ok(command) => command,
                Err(e) => return Err(e),
            },
        };
        Ok(WebDriverMessage::new(session_id, command))
    }
}

/// The parameters the message form of a command carries, if any. Commands
/// whose inputs live in the URL alone carry none; so does a new-session
/// request, whose capabilities the session layer sends separately.
pub open spec fn cmd_parameters_json(c: CmdData) -> Option<JsonData> {
    match c {
        CmdData::AddCookie { c } => Some(cookie_json(c)),
        CmdData::ElementSendKeys { text, .. } => Some(send_keys_parameters_json(text)),
        CmdData::ExecuteScript { script, args } => Some(
            javascript_command_parameters_json(script, args),
        ),
        CmdData::ExecuteAsyncScript { script, args } => Some(
            javascript_command_parameters_json(script, args),
        ),
        CmdData::FindElement { using, value } => Some(locator_parameters_json(using, value)),
        CmdData::FindElements { using, value } => Some(locator_parameters_json(using, value)),
        CmdData::FindElementElement { using, value, .. } => Some(
            locator_parameters_json(using, value),
        ),
        CmdData::FindElementElements { using, value, .. } => Some(
            locator_parameters_json(using, value),
        ),
        CmdData::Get { url } => Some(get_parameters_json(url)),
        CmdData::PerformActions { actions } => Some(actions_parameters_json(actions)),
        CmdData::SendAlertText { text } => Some(send_keys_parameters_json(text)),
        CmdData::SetTimeouts { p } => Some(timeouts_parameters_json(p)),
        CmdData::SetWindowRect { p } => Some(window_rect_parameters_json(p)),
        CmdData::SwitchToFrame { id } => Some(switch_to_frame_parameters_json(id)),
        CmdData::SwitchToWindow { handle } => Some(switch_to_window_parameters_json(handle)),
        _ => None,
    }
}

/// The message form of a decoded message: an object holding the command's
/// parameters under `parameters`, or empty when it carries none.
pub open spec fn message_json(m: MessageData) -> JsonData {
    match cmd_parameters_json(m.command) {
        Some(p) => JsonData::Obj { fields: seq![("parameters"@, p)] },
        None => JsonData::Obj { fields: Seq::empty() },
    }
}

impl<U: WebDriverExtensionRoute> WebDriverMessage<U> {
    /// Emits the message form of this message. An extension command hands
    /// over whatever parameters its own encoder yields.
    #[verifier::rlimit(60)]
    pub fn to_json(&self) -> (r: JsonValue)
        ensures
            !(self.command matches WebDriverCommand::Extension(_)) ==> r@ == message_json(self@),
    {
        broadcast use group_json_model_axioms;

        let parameters: Option<JsonValue> = match &self.command {
            WebDriverCommand::AddCookie(x) => Some(x.to_json()),
            WebDriverCommand::ElementSendKeys(_, x) => Some(x.to_json()),
            WebDriverCommand::ExecuteScript(x) => Some(x.to_json()),
            WebDriverCommand::ExecuteAsyncScript(x) => Some(x.to_json()),
            WebDriverCommand::FindElementElement(_, x) => Some(x.to_json()),
            WebDriverCommand::FindElementElements(_, x) => Some(x.to_json()),
            WebDriverCommand::FindElement(x) => Some(x.to_json()),
            WebDriverCommand::FindElements(x) => Some(x.to_json()),
            WebDriverCommand::Get(x) => Some(x.to_json()),
            WebDriverCommand::PerformActions(x) => Some(x.to_json()),
            WebDriverCommand::SendAlertText(x) => Some(x.to_json()),
            WebDriverCommand::SetTimeouts(x) => Some(x.to_json()),
            WebDriverCommand::SetWindowRect(x) => Some(x.to_json()),
            WebDriverCommand::SwitchToFrame(x) => Some(x.to_json()),
            WebDriverCommand::SwitchToWindow(x) => Some(x.to_json()),
            WebDriverCommand::Extension(x) => x.parameters_json(),
            _ => None,
        };
        match parameters {
            Option::Some(p) => {
                let fields = vec![JsonField { key: String::from_str("parameters"), val: p }];
                let r = JsonValue::Obj(fields);
                proof {
                    if !(self.command matches WebDriverCommand::Extension(_)) {
                        assert(fields_model(fields@) =~= message_json(self@)->Obj_fields);
                    }
                }
                r
            },
            Option::None => {
                let fields: Vec<JsonField> = Vec::new();
                let r = JsonValue::Obj(fields);
                proof {
                    if !(self.command matches WebDriverCommand::Extension(_)) {
                        assert(fields_model(fields@) =~= message_json(self@)->Obj_fields);
                    }
                }
                r
            },
        }
    }
}

} // verus!
