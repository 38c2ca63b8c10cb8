//! Shared primitives: the element-reference wire key, timestamps, element
//! references, frame targets and locator strategies.

use vstd::prelude::*;
use vstd::string::*;
use crate::json::{JsonValue, JsonData, JsonField, json_get, fields_model, group_json_model_axioms};
use crate::error::{
    ErrorStatus, ErrorData, WebDriverError, WebDriverResult, invalid_arg, invalid_error,
};

verus! {

/// The reserved wire key of an element reference. A protocol constant,
/// byte-exact on both encode and decode.
pub fn element_key() -> (r: &'static str)
    ensures
        r@ == spec_element_key(),
{
    "element-6066-11e4-a52e-4f735466cecf"
}

/// The character sequence of the element-reference wire key.
pub open spec fn spec_element_key() -> Seq<char> {
    "element-6066-11e4-a52e-4f735466cecf"@
}

/// A Unix-epoch timestamp in seconds, as cookie expiries carry it.
#[derive(Debug, Clone, Copy, PartialEq, Eq, Structural)]
pub struct Date(pub u64);

impl Date {
    pub fn new(timestamp: u64) -> (r: Date)
        ensures
            r == Date(timestamp),
    {
        Date(timestamp)
    }
}

/// An opaque handle to a UI element: a single string id, exchanged on the
/// wire as a one-key object under the element-reference key.
#[derive(Debug, Clone, PartialEq)]
pub struct WebElement {
    pub id: String,
}

impl View for WebElement {
    type V = Seq<char>;

    open spec fn view(&self) -> Seq<char> {
        self.id@
    }
}

/// The id of the element reference `d` holds, or why it holds none: a
/// non-object is rejected first, then a missing key, then a non-string id.
pub open spec fn web_element_of(d: JsonData) -> Result<Seq<char>, ErrorData> {
    if !(d is Obj) {
        Err(invalid_arg("Could not convert webelement to object"@))
    } else {
        match json_get(d, spec_element_key()) {
            Option::None => Err(invalid_arg("Could not find webelement key"@)),
            Option::Some(JsonData::Str { s }) => Ok(s),
            Option::Some(_) => Err(invalid_arg("Could not convert web element to string"@)),
        }
    }
}

/// The wire form of an element reference: a one-key object.
pub open spec fn web_element_json(id: Seq<char>) -> JsonData {
    JsonData::Obj { fields: seq![(spec_element_key(), JsonData::Str { s: id })] }
}

impl WebElement {
    pub fn new(id: String) -> (r: WebElement)
        ensures
            r@ == id@,
    {
        WebElement { id }
    }

    /// Reads an element reference out of any JSON value.
    pub fn from_json(data: &JsonValue) -> (r: WebDriverResult<WebElement>)
        ensures
            match r {
                Ok(w) => web_element_of(data@) == Ok::<Seq<char>, ErrorData>(w@),
                Err(e) => web_element_of(data@) == Err::<Seq<char>, ErrorData>(e@),
            },
    {
        match data {
            JsonValue::Obj(_) => match data.get_field(element_key()) {
                Option::Some(JsonValue::Str(s)) => Ok(WebElement::new(s.clone())),
                Option::Some(_) => Err(invalid_error("Could not convert web element to string")),
                Option::None => Err(invalid_error("Could not find webelement key")),
            },
            _ => Err(invalid_error("Could not convert webelement to object")),
        }
    }

    /// The wire form: a one-key object under the element-reference key.
    pub fn to_json(&self) -> (r: JsonValue)
        ensures
            r@ == web_element_json(self@),
    {
        let fields = vec![JsonField {
            key: String::from_str(element_key()),
            val: JsonValue::Str(self.id.clone()),
        }];
        proof {
            broadcast use group_json_model_axioms;

            assert(fields_model(fields@) =~= web_element_json(self@)->Obj_fields);
        }
        JsonValue::Obj(fields)
    }
}

/// A frame target: a window index in the unsigned 16-bit range, or an
/// element reference.
#[derive(Debug, Clone, PartialEq)]
pub enum FrameId {
    Short(u16),
    Element(WebElement),
}

/// The model of a `FrameId`.
pub enum FrameIdData {
    Short { id: u16 },
    Element { id: Seq<char> },
}

impl View for FrameId {
    type V = FrameIdData;

    open spec fn view(&self) -> FrameIdData {
        match self {
            FrameId::Short(id) => FrameIdData::Short { id: *id },
            FrameId::Element(w) => FrameIdData::Element { id: w@ },
        }
    }
}

/// The frame target `d` names. A number outside the unsigned 16-bit range
/// is the distinct kind `NoSuchFrame`, not a generic parse error; any object
/// is attempted as an element reference.
pub open spec fn frame_id_of(d: JsonData) -> Result<FrameIdData, ErrorData> {
    match d {
        JsonData::Num { n } => if 0 <= n <= u16::MAX as int {
            Ok(FrameIdData::Short { id: n as u16 })
        } else {
            Err(
                ErrorData {
                    kind: ErrorStatus::NoSuchFrame,
                    message: "Frame id out of range"@,
                    stack: None,
                },
            )
        },
        JsonData::Obj { .. } => match web_element_of(d) {
            Ok(id) => Ok(FrameIdData::Element { id }),
            Err(e) => Err(e),
        },
        _ => Err(invalid_arg("Invalid frame id"@)),
    }
}

/// The wire form of a frame target. An element target is emitted as its
/// bare id string, as the protocol's message form has it.
pub open spec fn frame_id_json(f: FrameIdData) -> JsonData {
    match f {
        FrameIdData::Short { id } => JsonData::Num { n: id as int },
        FrameIdData::Element { id } => JsonData::Str { s: id },
    }
}

impl FrameId {
    /// Reads a frame target out of any JSON value.
    pub fn from_json(data: &JsonValue) -> (r: WebDriverResult<FrameId>)
        ensures
            match r {
                Ok(f) => frame_id_of(data@) == Ok::<FrameIdData, ErrorData>(f@),
                Err(e) => frame_id_of(data@) == Err::<FrameIdData, ErrorData>(e@),
            },
    {
        match data {
            JsonValue::Num(n) => {
                if 0 <= *n && *n <= 65535 {
                    Ok(FrameId::Short(*n as u16))
                } else {
                    Err(
                        WebDriverError::new(
                            ErrorStatus::NoSuchFrame,
                            String::from_str("Frame id out of range"),
                        ),
                    )
                }
            },
            JsonValue::Obj(_) => match WebElement::from_json(data) {
                Ok(w) => Ok(FrameId::Element(w)),
                Err(e) => Err(e),
            },
            _ => Err(invalid_error("Invalid frame id")),
        }
    }

    /// The wire form of this frame target.
    pub fn to_json(&self) -> (r: JsonValue)
        ensures
            r@ == frame_id_json(self@),
    {
        match self {
            FrameId::Short(id) => JsonValue::Num(*id as i128),
            FrameId::Element(w) => JsonValue::Str(w.id.clone()),
        }
    }
}

/// The model of a cookie's fields, as both the add-cookie payload and the
/// cookie-list response carry them.
pub struct CookieData {
    pub name: Seq<char>,
    pub value: Seq<char>,
    pub path: Option<Seq<char>>,
    pub domain: Option<Seq<char>>,
    pub expiry: Option<Date>,
    pub secure: bool,
    pub http_only: bool,
}

/// An optional string field's wire form: the string, or `null`.
pub open spec fn opt_str_json(v: Option<Seq<char>>) -> JsonData {
    match v {
        Option::Some(s) => JsonData::Str { s },
        Option::None => JsonData::Null,
    }
}

/// The wire form of a cookie: every field written, absent optionals as
/// `null`, the expiry as its epoch seconds.
pub open spec fn cookie_json(c: CookieData) -> JsonData {
    JsonData::Obj {
        fields: seq![
            ("name"@, JsonData::Str { s: c.name }),
            ("value"@, JsonData::Str { s: c.value }),
            ("path"@, opt_str_json(c.path)),
            ("domain"@, opt_str_json(c.domain)),
            (
                "expiry"@,
                match c.expiry {
                    Option::Some(Date(secs)) => JsonData::Num { n: secs as int },
                    Option::None => JsonData::Null,
                },
            ),
            ("secure"@, JsonData::Bool { b: c.secure }),
            ("httpOnly"@, JsonData::Bool { b: c.http_only }),
        ],
    }
}

/// The four locator strategies the protocol defines.
#[derive(Debug, Clone, Copy, PartialEq, Eq, Structural)]
pub enum LocatorStrategy {
    CSSSelector,
    LinkText,
    PartialLinkText,
    XPath,
}

/// The wire string of a locator strategy.
pub open spec fn locator_strategy_wire(l: LocatorStrategy) -> Seq<char> {
    match l {
        LocatorStrategy::CSSSelector => "css selector"@,
        LocatorStrategy::LinkText => "link text"@,
        LocatorStrategy::PartialLinkText => "partial link text"@,
        LocatorStrategy::XPath => "xpath"@,
    }
}

/// The strategy `d` names: one of the four wire strings; any other string
/// is rejected with a message naming it, a non-string with a fixed message.
pub open spec fn locator_strategy_of(d: JsonData) -> Result<LocatorStrategy, ErrorData> {
    match d {
        JsonData::Str { s } => if s == "css selector"@ {
            Ok(LocatorStrategy::CSSSelector)
        } else if s == "link text"@ {
            Ok(LocatorStrategy::LinkText)
        } else if s == "partial link text"@ {
            Ok(LocatorStrategy::PartialLinkText)
        } else if s == "xpath"@ {
            Ok(LocatorStrategy::XPath)
        } else {
            Err(invalid_arg("Unknown locator strategy "@ + s))
        },
        _ => Err(invalid_arg("Cound not convert strategy to string"@)),
    }
}

impl LocatorStrategy {
    /// Reads a locator strategy out of any JSON value.
    pub fn from_json(body: &JsonValue) -> (r: WebDriverResult<LocatorStrategy>)
        ensures
            match r {
                Ok(l) => locator_strategy_of(body@) == Ok::<LocatorStrategy, ErrorData>(l),
                Err(e) => locator_strategy_of(body@) == Err::<LocatorStrategy, ErrorData>(e@),
            },
    {
        match body {
            JsonValue::Str(s) => {
                let x = s.as_str();
                if crate::json::str_eq(x, "css selector") {
                    Ok(LocatorStrategy::CSSSelector)
                } else if crate::json::str_eq(x, "link text") {
                    Ok(LocatorStrategy::LinkText)
                } else if crate::json::str_eq(x, "partial link text") {
                    Ok(LocatorStrategy::PartialLinkText)
                } else if crate::json::str_eq(x, "xpath") {
                    Ok(LocatorStrategy::XPath)
                } else {
                    Err(
                        WebDriverError::new(
                            ErrorStatus::InvalidArgument,
                            String::from_str("Unknown locator strategy ").concat(x),
                        ),
                    )
                }
            },
            _ => Err(invalid_error("Cound not convert strategy to string")),
        }
    }

    /// The wire string of this strategy.
    pub fn to_json(&self) -> (r: JsonValue)
        ensures
            (r@ == JsonData::Str { s: locator_strategy_wire(*self) }),
    {
        match self {
            LocatorStrategy::CSSSelector => JsonValue::Str(String::from_str("css selector")),
            LocatorStrategy::LinkText => JsonValue::Str(String::from_str("link text")),
            LocatorStrategy::PartialLinkText => JsonValue::Str(
                String::from_str("partial link text"),
            ),
            LocatorStrategy::XPath => JsonValue::Str(String::from_str("xpath")),
        }
    }
}

} // verus!
