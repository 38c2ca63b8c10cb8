//! Field readers over decoded JSON objects: each required field absent is
//! `InvalidArgument` naming the field; each field present with the wrong
//! JSON type is `InvalidArgument` naming the field and the expected type.
//! Optional fields treat `null` and absence alike.

use vstd::prelude::*;
use crate::json::{JsonValue, JsonData, json_get, num_as_u64, num_as_i64};
use crate::error::{
    ErrorStatus, ErrorData, WebDriverResult, invalid_arg, missing_field_msg, wrong_type_msg,
    missing_field_error, wrong_type_error, mentions, lemma_missing_field_msg_mentions,
};

verus! {

/// The required string field `name` of `d`.
pub open spec fn req_string_of(d: JsonData, name: Seq<char>) -> Result<Seq<char>, ErrorData> {
    match json_get(d, name) {
        Option::None => Err(invalid_arg(missing_field_msg(name))),
        Option::Some(JsonData::Str { s }) => Ok(s),
        Option::Some(_) => Err(invalid_arg(wrong_type_msg(name, "string"@))),
    }
}

/// The optional string field `name` of `d`; `null` and absence are `None`.
pub open spec fn opt_string_of(d: JsonData, name: Seq<char>) -> Result<
    Option<Seq<char>>,
    ErrorData,
> {
    match json_get(d, name) {
        Option::None => Ok(None),
        Option::Some(JsonData::Null) => Ok(None),
        Option::Some(JsonData::Str { s }) => Ok(Some(s)),
        Option::Some(_) => Err(invalid_arg(wrong_type_msg(name, "string"@))),
    }
}

/// The required non-negative integer field `name` of `d`.
pub open spec fn req_u64_of(d: JsonData, name: Seq<char>) -> Result<u64, ErrorData> {
    match json_get(d, name) {
        Option::None => Err(invalid_arg(missing_field_msg(name))),
        Option::Some(f) => match num_as_u64(f) {
            Option::Some(u) => Ok(u),
            Option::None => Err(invalid_arg(wrong_type_msg(name, "non-negative integer"@))),
        },
    }
}

/// The optional non-negative integer field `name` of `d`.
pub open spec fn opt_u64_of(d: JsonData, name: Seq<char>) -> Result<Option<u64>, ErrorData> {
    match json_get(d, name) {
        Option::None => Ok(None),
        Option::Some(JsonData::Null) => Ok(None),
        Option::Some(f) => match num_as_u64(f) {
            Option::Some(u) => Ok(Some(u)),
            Option::None => Err(invalid_arg(wrong_type_msg(name, "non-negative integer"@))),
        },
    }
}

/// The optional signed integer field `name` of `d`.
pub open spec fn opt_i64_of(d: JsonData, name: Seq<char>) -> Result<Option<i64>, ErrorData> {
    match json_get(d, name) {
        Option::None => Ok(None),
        Option::Some(JsonData::Null) => Ok(None),
        Option::Some(f) => match num_as_i64(f) {
            Option::Some(i) => Ok(Some(i)),
            Option::None => Err(invalid_arg(wrong_type_msg(name, "integer"@))),
        },
    }
}

/// The boolean field `name` of `d`, `false` when absent.
pub open spec fn bool_default_false_of(d: JsonData, name: Seq<char>) -> Result<bool, ErrorData> {
    match json_get(d, name) {
        Option::None => Ok(false),
        Option::Some(JsonData::Bool { b }) => Ok(b),
        Option::Some(_) => Err(invalid_arg(wrong_type_msg(name, "boolean"@))),
    }
}

/// A required string field the object does not hold is rejected as
/// `InvalidArgument`, with a message that mentions the missing field by
/// name.
pub proof fn lemma_missing_string_field_mentions(d: JsonData, name: Seq<char>)
    requires
        json_get(d, name) is None,
    ensures
        (req_string_of(d, name) matches Err(e) && e.kind == ErrorStatus::InvalidArgument
            && mentions(e.message, name)),
{
    lemma_missing_field_msg_mentions(name);
}

/// A required number field the object does not hold is rejected as
/// `InvalidArgument`, with a message that mentions the missing field by
/// name.
pub proof fn lemma_missing_u64_field_mentions(d: JsonData, name: Seq<char>)
    requires
        json_get(d, name) is None,
    ensures
        (req_u64_of(d, name) matches Err(e) && e.kind == ErrorStatus::InvalidArgument
            && mentions(e.message, name)),
{
    lemma_missing_field_msg_mentions(name);
}

/// Reads the required string field `name` of `obj`.
pub fn decode_req_string(obj: &JsonValue, name: &str) -> (r: WebDriverResult<String>)
    ensures
        match r {
            Ok(s) => req_string_of(obj@, name@) == Ok::<Seq<char>, ErrorData>(s@),
            Err(e) => req_string_of(obj@, name@) == Err::<Seq<char>, ErrorData>(e@),
        },
{
    match obj.get_field(name) {
        Option::Some(JsonValue::Str(s)) => Ok(s.clone()),
        Option::Some(_) => Err(wrong_type_error(name, "string")),
        Option::None => Err(missing_field_error(name)),
    }
}

/// Reads the optional string field `name` of `obj`.
pub fn decode_opt_string(obj: &JsonValue, name: &str) -> (r: WebDriverResult<Option<String>>)
    ensures
        match r {
            Ok(Option::Some(s)) => opt_string_of(obj@, name@) == Ok::<
                Option<Seq<char>>,
                ErrorData,
            >(Some(s@)),
            Ok(Option::None) => opt_string_of(obj@, name@) == Ok::<
                Option<Seq<char>>,
                ErrorData,
            >(None),
            Err(e) => opt_string_of(obj@, name@) == Err::<Option<Seq<char>>, ErrorData>(e@),
        },
{
    match obj.get_field(name) {
        Option::None => Ok(None),
        Option::Some(JsonValue::Null) => Ok(None),
        Option::Some(JsonValue::Str(s)) => Ok(Some(s.clone())),
        Option::Some(_) => Err(wrong_type_error(name, "string")),
    }
}

/// Reads the required non-negative integer field `name` of `obj`.
pub fn decode_req_u64(obj: &JsonValue, name: &str) -> (r: WebDriverResult<u64>)
    ensures
        match r {
            Ok(u) => req_u64_of(obj@, name@) == Ok::<u64, ErrorData>(u),
            Err(e) => req_u64_of(obj@, name@) == Err::<u64, ErrorData>(e@),
        },
{
    match obj.get_field(name) {
        Option::None => Err(missing_field_error(name)),
        Option::Some(JsonValue::Num(n)) => {
            if 0 <= *n && *n <= u64::MAX as i128 {
                Ok(*n as u64)
            } else {
                Err(wrong_type_error(name, "non-negative integer"))
            }
        },
        Option::Some(_) => Err(wrong_type_error(name, "non-negative integer")),
    }
}

/// Reads the optional non-negative integer field `name` of `obj`.
pub fn decode_opt_u64(obj: &JsonValue, name: &str) -> (r: WebDriverResult<Option<u64>>)
    ensures
        match r {
            Ok(Option::Some(u)) => opt_u64_of(obj@, name@) == Ok::<Option<u64>, ErrorData>(
                Some(u),
            ),
            Ok(Option::None) => opt_u64_of(obj@, name@) == Ok::<Option<u64>, ErrorData>(None),
            Err(e) => opt_u64_of(obj@, name@) == Err::<Option<u64>, ErrorData>(e@),
        },
{
    match obj.get_field(name) {
        Option::None => Ok(None),
        Option::Some(JsonValue::Null) => Ok(None),
        Option::Some(JsonValue::Num(n)) => {
            if 0 <= *n && *n <= u64::MAX as i128 {
                Ok(Some(*n as u64))
            } else {
                Err(wrong_type_error(name, "non-negative integer"))
            }
        },
        Option::Some(_) => Err(wrong_type_error(name, "non-negative integer")),
    }
}

/// Reads the optional signed integer field `name` of `obj`.
pub fn decode_opt_i64(obj: &JsonValue, name: &str) -> (r: WebDriverResult<Option<i64>>)
    ensures
        match r {
            Ok(Option::Some(i)) => opt_i64_of(obj@, name@) == Ok::<Option<i64>, ErrorData>(
                Some(i),
            ),
            Ok(Option::None) => opt_i64_of(obj@, name@) == Ok::<Option<i64>, ErrorData>(None),
            Err(e) => opt_i64_of(obj@, name@) == Err::<Option<i64>, ErrorData>(e@),
        },
{
    match obj.get_field(name) {
        Option::None => Ok(None),
        Option::Some(JsonValue::Null) => Ok(None),
        Option::Some(JsonValue::Num(n)) => {
            if i64::MIN as i128 <= *n && *n <= i64::MAX as i128 {
                Ok(Some(*n as i64))
            } else {
                Err(wrong_type_error(name, "integer"))
            }
        },
        Option::Some(_) => Err(wrong_type_error(name, "integer")),
    }
}

/// Reads the boolean field `name` of `obj`, `false` when absent.
pub fn decode_bool_default_false(obj: &JsonValue, name: &str) -> (r: WebDriverResult<bool>)
    ensures
        match r {
            Ok(b) => bool_default_false_of(obj@, name@) == Ok::<bool, ErrorData>(b),
            Err(e) => bool_default_false_of(obj@, name@) == Err::<bool, ErrorData>(e@),
        },
{
    match obj.get_field(name) {
        Option::None => Ok(false),
        Option::Some(JsonValue::Bool(b)) => Ok(*b),
        Option::Some(_) => Err(wrong_type_error(name, "boolean")),
    }
}

} // verus!
