//! Decode failures: an error kind from the protocol's table and a message
//! naming the offending field or value.

use vstd::prelude::*;
use vstd::string::*;

verus! {

/// The error kinds this layer selects from. The protocol's full table is
/// owned by the surrounding server; decoding itself emits `InvalidArgument`
/// and `NoSuchFrame`, the void extension seam `UnknownError`, and the
/// cookie-setting path of the surrounding server `UnableToSetCookie`.
#[derive(Debug, Clone, Copy, PartialEq, Eq, Structural)]
pub enum ErrorStatus {
    InvalidArgument,
    NoSuchFrame,
    UnableToSetCookie,
    UnknownError,
}

/// The model of a `WebDriverError`.
pub struct ErrorData {
    pub kind: ErrorStatus,
    pub message: Seq<char>,
    pub stack: Option<Seq<char>>,
}

/// A decode failure. `stack` is the secondary diagnostic of a JSON syntax
/// error (the parse position); it is kept apart from the message and is for
/// display only, never for control flow.
#[derive(Debug, PartialEq)]
pub struct WebDriverError {
    pub error: ErrorStatus,
    pub message: String,
    pub stack: Option<String>,
}

pub type WebDriverResult<T> = Result<T, WebDriverError>;

impl View for WebDriverError {
    type V = ErrorData;

    open spec fn view(&self) -> ErrorData {
        ErrorData {
            kind: self.error,
            message: self.message@,
            stack: match self.stack {
                Some(s) => Some(s@),
                None => None,
            },
        }
    }
}

impl WebDriverError {
    pub fn new(error: ErrorStatus, message: String) -> (r: WebDriverError)
        ensures
            (r@ == ErrorData { kind: error, message: message@, stack: None }),
    {
        WebDriverError { error, message, stack: None }
    }

    pub fn new_with_stack(error: ErrorStatus, message: String, stack: String) -> (r:
        WebDriverError)
        ensures
            (r@ == ErrorData { kind: error, message: message@, stack: Some(stack@) }),
    {
        WebDriverError { error, message, stack: Some(stack) }
    }
}

/// An `InvalidArgument` failure with the given message and no diagnostic.
pub open spec fn invalid_arg(message: Seq<char>) -> ErrorData {
    ErrorData { kind: ErrorStatus::InvalidArgument, message, stack: None }
}

/// The message reporting a required field that the payload does not hold.
pub open spec fn missing_field_msg(name: Seq<char>) -> Seq<char> {
    "Missing "@ + name + " parameter"@
}

/// The message reporting a field whose JSON value has the wrong type.
pub open spec fn wrong_type_msg(name: Seq<char>, expected: Seq<char>) -> Seq<char> {
    "Parameter "@ + name + " was not a "@ + expected
}

/// An `InvalidArgument` error with a fixed message.
pub fn invalid_error(message: &str) -> (r: WebDriverError)
    ensures
        r@ == invalid_arg(message@),
{
    WebDriverError::new(ErrorStatus::InvalidArgument, String::from_str(message))
}

/// The error for a required field that the payload does not hold.
pub fn missing_field_error(name: &str) -> (r: WebDriverError)
    ensures
        r@ == invalid_arg(missing_field_msg(name@)),
{
    WebDriverError::new(
        ErrorStatus::InvalidArgument,
        String::from_str("Missing ").concat(name).concat(" parameter"),
    )
}

/// The error for a field whose JSON value has the wrong type.
pub fn wrong_type_error(name: &str, expected: &str) -> (r: WebDriverError)
    ensures
        r@ == invalid_arg(wrong_type_msg(name@, expected@)),
{
    WebDriverError::new(
        ErrorStatus::InvalidArgument,
        String::from_str("Parameter ").concat(name).concat(" was not a ").concat(expected),
    )
}

/// Whether `name` occurs in `msg` as a contiguous run of characters.
pub open spec fn mentions(msg: Seq<char>, name: Seq<char>) -> bool {
    exists|i: int|
        0 <= i && i + name.len() <= msg.len() && #[trigger] msg.subrange(i, i + name.len())
            == name
}

/// Every message reporting a missing required field mentions that field by
/// name.
pub proof fn lemma_missing_field_msg_mentions(name: Seq<char>)
    ensures
        mentions(missing_field_msg(name), name),
{
    let pre = "Missing "@;
    let msg = missing_field_msg(name);
    assert(msg.subrange(pre.len() as int, pre.len() as int + name.len() as int) =~= name);
}

/// Every message reporting a wrongly typed field mentions that field by
/// name.
pub proof fn lemma_wrong_type_msg_mentions(name: Seq<char>, expected: Seq<char>)
    ensures
        mentions(wrong_type_msg(name, expected), name),
{
    let pre = "Parameter "@;
    let msg = wrong_type_msg(name, expected);
    assert(msg.subrange(pre.len() as int, pre.len() as int + name.len() as int) =~= name);
}

} // verus!
