//! Typed results and their wire form: every response body is wrapped as
//! `{"value": ...}` except the two empty acknowledgements, which are the
//! literal empty object. The generic and cookie-list shapes already place
//! their payload under `value`, so the encoder wraps each payload exactly
//! once and never twice.

use vstd::prelude::*;
use vstd::string::*;
use crate::json::{
    JsonValue, JsonData, JsonField, json_text, to_text, items_model, fields_model,
    group_json_model_axioms,
};
use crate::common::{Date, CookieData, cookie_json};

verus! {

/// A closed union of result shapes, constructed once per completed command
/// and consumed exactly once by the encoder.
#[derive(Debug)]
pub enum WebDriverResponse {
    CloseWindow(CloseWindowResponse),
    Cookie(CookieResponse),
    DeleteSession,
    Generic(ValueResponse),
    NewSession(NewSessionResponse),
    Timeouts(TimeoutsResponse),
    Void,
    WindowRect(WindowRectResponse),
}

/// The handles of the windows left open after closing one.
#[derive(Debug)]
pub struct CloseWindowResponse {
    pub window_handles: Vec<String>,
}

/// The models of a list of strings.
pub open spec fn strings_model(s: Seq<String>) -> Seq<Seq<char>> {
    Seq::new(s.len(), |i: int| s[i]@)
}

pub broadcast proof fn lemma_strings_model_len(s: Seq<String>)
    ensures
        #[trigger] strings_model(s).len() == s.len(),
{
}

pub broadcast proof fn lemma_strings_model_index(s: Seq<String>, i: int)
    requires
        0 <= i < s.len(),
    ensures
        #[trigger] strings_model(s)[i] == s[i]@,
{
}

impl View for CloseWindowResponse {
    type V = Seq<Seq<char>>;

    open spec fn view(&self) -> Seq<Seq<char>> {
        strings_model(self.window_handles@)
    }
}

impl CloseWindowResponse {
    pub fn new(handles: Vec<String>) -> (r: CloseWindowResponse)
        ensures
            r@ == strings_model(handles@),
    {
        CloseWindowResponse { window_handles: handles }
    }
}

/// The session id and the matched capabilities of a fresh session.
#[derive(Debug)]
pub struct NewSessionResponse {
    pub session_id: String,
    pub capabilities: JsonValue,
}

impl View for NewSessionResponse {
    type V = (Seq<char>, JsonData);

    open spec fn view(&self) -> (Seq<char>, JsonData) {
        (self.session_id@, self.capabilities@)
    }
}

impl NewSessionResponse {
    pub fn new(session_id: String, capabilities: JsonValue) -> (r: NewSessionResponse)
        ensures
            r@ == (session_id@, capabilities@),
    {
        NewSessionResponse { capabilities, session_id }
    }
}

/// The three session timeouts, in milliseconds.
#[derive(Debug, Clone, Copy, PartialEq, Eq, Structural)]
pub struct TimeoutsResponse {
    pub script: u64,
    pub page_load: u64,
    pub implicit: u64,
}

impl TimeoutsResponse {
    pub fn new(script: u64, page_load: u64, implicit: u64) -> (r: TimeoutsResponse)
        ensures
            (r == TimeoutsResponse { script, page_load, implicit }),
    {
        TimeoutsResponse { script, page_load, implicit }
    }
}

/// A result carried through as the JSON the backend produced; its own
/// serialization already places the payload under a top-level `value` key.
#[derive(Debug)]
pub struct ValueResponse {
    pub value: JsonValue,
}

impl View for ValueResponse {
    type V = JsonData;

    open spec fn view(&self) -> JsonData {
        self.value@
    }
}

impl ValueResponse {
    pub fn new(value: JsonValue) -> (r: ValueResponse)
        ensures
            r@ == value@,
    {
        ValueResponse { value }
    }
}

/// A window's placement, in integer screen coordinates.
#[derive(Debug, Clone, Copy, PartialEq, Eq, Structural)]
pub struct WindowRectResponse {
    pub x: i64,
    pub y: i64,
    pub width: u64,
    pub height: u64,
}

/// One cookie of the current page.
#[derive(Debug, Clone, PartialEq)]
pub struct Cookie {
    pub name: String,
    pub value: String,
    pub path: Option<String>,
    pub domain: Option<String>,
    pub expiry: Option<Date>,
    pub secure: bool,
    pub http_only: bool,
}

impl View for Cookie {
    type V = CookieData;

    open spec fn view(&self) -> CookieData {
        CookieData {
            name: self.name@,
            value: self.value@,
            path: match self.path {
                Option::Some(s) => Some(s@),
                Option::None => None,
            },
            domain: match self.domain {
                Option::Some(s) => Some(s@),
                Option::None => None,
            },
            expiry: self.expiry,
            secure: self.secure,
            http_only: self.http_only,
        }
    }
}

impl Cookie {
    pub fn new(
        name: String,
        value: String,
        path: Option<String>,
        domain: Option<String>,
        expiry: Option<Date>,
        secure: bool,
        http_only: bool,
    ) -> (r: Cookie)
        ensures
            (r@ == CookieData {
                name: name@,
                value: value@,
                path: match path {
                    Option::Some(s) => Some(s@),
                    Option::None => None,
                },
                domain: match domain {
                    Option::Some(s) => Some(s@),
                    Option::None => None,
                },
                expiry,
                secure,
                http_only,
            }),
    {
        Cookie { name, value, path, domain, expiry, secure, http_only }
    }

    /// The wire form of this cookie.
    pub fn to_json(&self) -> (r: JsonValue)
        ensures
            r@ == cookie_json(self@),
    {
        let path = match &self.path {
            Option::Some(s) => JsonValue::Str(s.clone()),
            Option::None => JsonValue::Null,
        };
        let domain = match &self.domain {
            Option::Some(s) => JsonValue::Str(s.clone()),
            Option::None => JsonValue::Null,
        };
        let expiry = match self.expiry {
            Option::Some(Date(secs)) => JsonValue::Num(secs as i128),
            Option::None => JsonValue::Null,
        };
        let fields = vec![
            JsonField { key: String::from_str("name"), val: JsonValue::Str(self.name.clone()) },
            JsonField { key: String::from_str("value"), val: JsonValue::Str(self.value.clone()) },
            JsonField { key: String::from_str("path"), val: path },
            JsonField { key: String::from_str("domain"), val: domain },
            JsonField { key: String::from_str("expiry"), val: expiry },
            JsonField { key: String::from_str("secure"), val: JsonValue::Bool(self.secure) },
            JsonField { key: String::from_str("httpOnly"), val: JsonValue::Bool(self.http_only) },
        ];
        let r = JsonValue::Obj(fields);
        proof {
            broadcast use group_json_model_axioms;

            assert(fields_model(fields@) =~= cookie_json(self@)->Obj_fields);
        }
        r
    }
}

/// The cookies of the current page.
#[derive(Debug)]
pub struct CookieResponse {
    pub value: Vec<Cookie>,
}

/// The models of a list of cookies.
pub open spec fn cookies_model(s: Seq<Cookie>) -> Seq<CookieData> {
    Seq::new(s.len(), |i: int| s[i]@)
}

pub broadcast proof fn lemma_cookies_model_len(s: Seq<Cookie>)
    ensures
        #[trigger] cookies_model(s).len() == s.len(),
{
}

pub broadcast proof fn lemma_cookies_model_index(s: Seq<Cookie>, i: int)
    requires
        0 <= i < s.len(),
    ensures
        #[trigger] cookies_model(s)[i] == s[i]@,
{
}

impl View for CookieResponse {
    type V = Seq<CookieData>;

    open spec fn view(&self) -> Seq<CookieData> {
        cookies_model(self.value@)
    }
}

impl CookieResponse {
    pub fn new(value: Vec<Cookie>) -> (r: CookieResponse)
        ensures
            r@ == cookies_model(value@),
    {
        CookieResponse { value }
    }
}

/// The `{"value": ...}` envelope applied to every non-empty response.
pub open spec fn wrap_json(body: JsonData) -> JsonData {
    JsonData::Obj { fields: seq![("value"@, body)] }
}

/// The wire form of a close-window response: the bare array of handles.
pub open spec fn close_window_json(handles: Seq<Seq<char>>) -> JsonData {
    JsonData::Arr { items: Seq::new(handles.len(), |i: int| JsonData::Str { s: handles[i] }) }
}

/// The wire form of a cookie list: the bare array of cookies.
pub open spec fn cookie_list_json(cookies: Seq<CookieData>) -> JsonData {
    JsonData::Arr { items: Seq::new(cookies.len(), |i: int| cookie_json(cookies[i])) }
}

/// The wire form of a new-session response.
pub open spec fn new_session_json(session_id: Seq<char>, capabilities: JsonData) -> JsonData {
    JsonData::Obj {
        fields: seq![
            ("sessionId"@, JsonData::Str { s: session_id }),
            ("capabilities"@, capabilities),
        ],
    }
}

/// The wire form of a timeouts response.
pub open spec fn timeouts_json(t: TimeoutsResponse) -> JsonData {
    JsonData::Obj {
        fields: seq![
            ("script"@, JsonData::Num { n: t.script as int }),
            ("pageLoad"@, JsonData::Num { n: t.page_load as int }),
            ("implicit"@, JsonData::Num { n: t.implicit as int }),
        ],
    }
}

/// The wire form of a window-rect response.
pub open spec fn window_rect_json(w: WindowRectResponse) -> JsonData {
    JsonData::Obj {
        fields: seq![
            ("x"@, JsonData::Num { n: w.x as int }),
            ("y"@, JsonData::Num { n: w.y as int }),
            ("width"@, JsonData::Num { n: w.width as int }),
            ("height"@, JsonData::Num { n: w.height as int }),
        ],
    }
}

/// Wraps a body in the `{"value": ...}` envelope.
fn wrap(body: JsonValue) -> (r: JsonValue)
    ensures
        r@ == wrap_json(body@),
{
    let fields = vec![JsonField { key: String::from_str("value"), val: body }];
    let r = JsonValue::Obj(fields);
    proof {
        broadcast use group_json_model_axioms;

        assert(fields_model(fields@) =~= wrap_json(fields@[0].val@)->Obj_fields);
    }
    r
}

impl WebDriverResponse {
    /// The canonical JSON text of this response: each payload under one
    /// `value` key — a cookie list or generic value is wrapped exactly
    /// once, though its own shape already carries a `value` key — and the
    /// two empty acknowledgements as the literal empty object.
    #[verifier::loop_isolation(false)]
    pub fn to_json_string(self) -> (r: String)
        ensures
            match self {
                WebDriverResponse::CloseWindow(x) => r@ == json_text(
                    wrap_json(close_window_json(x@)),
                ),
                WebDriverResponse::Cookie(x) => r@ == json_text(wrap_json(cookie_list_json(x@))),
                WebDriverResponse::DeleteSession => r@ == "{}"@,
                WebDriverResponse::Generic(x) => r@ == json_text(wrap_json(x@)),
                WebDriverResponse::NewSession(x) => r@ == json_text(
                    wrap_json(new_session_json(x@.0, x@.1)),
                ),
                WebDriverResponse::Timeouts(x) => r@ == json_text(wrap_json(timeouts_json(x))),
                WebDriverResponse::Void => r@ == "{}"@,
                WebDriverResponse::WindowRect(x) => r@ == json_text(wrap_json(window_rect_json(x))),
            },
    {
        broadcast use group_json_model_axioms, lemma_strings_model_len, lemma_strings_model_index, lemma_cookies_model_len, lemma_cookies_model_index;

        match self {
            WebDriverResponse::CloseWindow(x) => {
                let mut items: Vec<JsonValue> = Vec::new();
                let mut j: usize = 0;
                while j < x.window_handles.len()
                    invariant
                        j <= x.window_handles@.len(),
                        items@.len() == j,
                        forall|k: int|
                            0 <= k < j ==> (#[trigger] items@[k])@ == (JsonData::Str {
                                s: x.window_handles@[k]@,
                            }),
                    decreases x.window_handles@.len() - j,
                {
                    items.push(JsonValue::Str(x.window_handles[j].clone()));
                    j += 1;
                }
                proof {
                    assert(items_model(items@) =~= close_window_json(x@)->Arr_items);
                }
                to_text(&wrap(JsonValue::Arr(items)))
            },
            WebDriverResponse::Cookie(x) => {
                let mut items: Vec<JsonValue> = Vec::new();
                let mut j: usize = 0;
                while j < x.value.len()
                    invariant
                        j <= x.value@.len(),
                        items@.len() == j,
                        forall|k: int|
                            0 <= k < j ==> (#[trigger] items@[k])@ == cookie_json(x.value@[k]@),
                    decreases x.value@.len() - j,
                {
                    items.push(x.value[j].to_json());
                    j += 1;
                }
                proof {
                    assert(items_model(items@) =~= cookie_list_json(x@)->Arr_items);
                }
                to_text(&wrap(JsonValue::Arr(items)))
            },
            WebDriverResponse::DeleteSession => String::from_str("{}"),
            WebDriverResponse::Generic(x) => to_text(&wrap(x.value)),
            WebDriverResponse::NewSession(x) => {
                let fields = vec![
                    JsonField {
                        key: String::from_str("sessionId"),
                        val: JsonValue::Str(x.session_id.clone()),
                    },
                    JsonField { key: String::from_str("capabilities"), val: x.capabilities },
                ];
                let body = JsonValue::Obj(fields);
                proof {
                    assert(fields_model(fields@) =~= new_session_json(x@.0, x@.1)->Obj_fields);
                }
                to_text(&wrap(body))
            },
            WebDriverResponse::Timeouts(x) => {
                let fields = vec![
                    JsonField {
                        key: String::from_str("script"),
                        val: JsonValue::Num(x.script as i128),
                    },
                    JsonField {
                        key: String::from_str("pageLoad"),
                        val: JsonValue::Num(x.page_load as i128),
                    },
                    JsonField {
                        key: String::from_str("implicit"),
                        val: JsonValue::Num(x.implicit as i128),
                    },
                ];
                let body = JsonValue::Obj(fields);
                proof {
                    assert(fields_model(fields@) =~= timeouts_json(x)->Obj_fields);
                }
                to_text(&wrap(body))
            },
            WebDriverResponse::Void => String::from_str("{}"),
            WebDriverResponse::WindowRect(x) => {
                let fields = vec![
                    JsonField { key: String::from_str("x"), val: JsonValue::Num(x.x as i128) },
                    JsonField { key: String::from_str("y"), val: JsonValue::Num(x.y as i128) },
                    JsonField {
                        key: String::from_str("width"),
                        val: JsonValue::Num(x.width as i128),
                    },
                    JsonField {
                        key: String::from_str("height"),
                        val: JsonValue::Num(x.height as i128),
                    },
                ];
                let body = JsonValue::Obj(fields);
                proof {
                    assert(fields_model(fields@) =~= window_rect_json(x)->Obj_fields);
                }
                to_text(&wrap(body))
            },
        }
    }
}

} // verus!
