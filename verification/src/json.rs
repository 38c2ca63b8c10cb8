//! A JSON tree owned by this crate, with a mathematical model, plus the
//! trusted boundary to serde_json for turning wire text into trees and back.

use vstd::prelude::*;
use vstd::string::*;

verus! {

/// A JSON value as this library holds it. Integers in the signed or unsigned
/// 64-bit range are kept exactly in `Num`; any other JSON number is carried
/// opaquely as its decimal text in `Float`, so that payloads this layer does
/// not interpret still pass through. (A `Num` outside both 64-bit ranges
/// cannot come from the wire and is rendered as `null` if ever emitted.)
#[derive(Debug, PartialEq)]
pub enum JsonValue {
    Null,
    Bool(bool),
    Num(i128),
    Float(String),
    Str(String),
    Arr(Vec<JsonValue>),
    Obj(Vec<JsonField>),
}

/// One key/value pair of a JSON object. Insertion order is kept; lookups
/// take the first binding of a key.
#[derive(Debug, PartialEq)]
pub struct JsonField {
    pub key: String,
    pub val: JsonValue,
}

/// The mathematical model of a JSON tree: what contracts speak about.
#[verifier::ext_equal]
pub enum JsonData {
    Null,
    Bool { b: bool },
    Num { n: int },
    Float { text: Seq<char> },
    Str { s: Seq<char> },
    Arr { items: Seq<JsonData> },
    Obj { fields: Seq<(Seq<char>, JsonData)> },
}

/// The models of the elements of a JSON array.
pub open spec fn items_model(items: Seq<JsonValue>) -> Seq<JsonData>
    decreases items,
{
    Seq::new(
        items.len(),
        |i: int|
            if 0 <= i < items.len() {
                items[i]@
            } else {
                JsonData::Null
            },
    )
}

/// The models of the fields of a JSON object.
pub open spec fn fields_model(fields: Seq<JsonField>) -> Seq<(Seq<char>, JsonData)>
    decreases fields,
{
    Seq::new(
        fields.len(),
        |i: int|
            if 0 <= i < fields.len() {
                (fields[i].key@, fields[i].val@)
            } else {
                (Seq::empty(), JsonData::Null)
            },
    )
}

pub broadcast proof fn lemma_items_model_len(items: Seq<JsonValue>)
    ensures
        #[trigger] items_model(items).len() == items.len(),
{
}

pub broadcast proof fn lemma_items_model_index(items: Seq<JsonValue>, i: int)
    requires
        0 <= i < items.len(),
    ensures
        #[trigger] items_model(items)[i] == items[i]@,
{
}

pub broadcast proof fn lemma_fields_model_len(fields: Seq<JsonField>)
    ensures
        #[trigger] fields_model(fields).len() == fields.len(),
{
}

pub broadcast proof fn lemma_fields_model_index(fields: Seq<JsonField>, i: int)
    requires
        0 <= i < fields.len(),
    ensures
        #[trigger] fields_model(fields)[i] == (fields[i].key@, fields[i].val@),
{
}

/// All four index and length facts about the element models, together.
pub broadcast group group_json_model_axioms {
    lemma_items_model_len,
    lemma_items_model_index,
    lemma_fields_model_len,
    lemma_fields_model_index,
}

impl View for JsonValue {
    type V = JsonData;

    open spec fn view(&self) -> JsonData
        decreases self,
    {
        match self {
            JsonValue::Null => JsonData::Null,
            JsonValue::Bool(b) => JsonData::Bool { b: *b },
            JsonValue::Num(n) => JsonData::Num { n: *n as int },
            JsonValue::Float(t) => JsonData::Float { text: t@ },
            JsonValue::Str(s) => JsonData::Str { s: s@ },
            JsonValue::Arr(items) => JsonData::Arr { items: items_model(items@) },
            JsonValue::Obj(fields) => JsonData::Obj { fields: fields_model(fields@) },
        }
    }
}

/// The first binding of `key` among `fields` at or after position `i`.
pub open spec fn obj_lookup_from(
    fields: Seq<(Seq<char>, JsonData)>,
    key: Seq<char>,
    i: int,
) -> Option<JsonData>
    decreases fields.len() - i,
{
    if i < 0 || i >= fields.len() {
        None
    } else if fields[i].0 == key {
        Some(fields[i].1)
    } else {
        obj_lookup_from(fields, key, i + 1)
    }
}

/// The first binding of `key` among `fields`, if any.
pub open spec fn obj_lookup(fields: Seq<(Seq<char>, JsonData)>, key: Seq<char>) -> Option<
    JsonData,
> {
    obj_lookup_from(fields, key, 0)
}

/// The value of field `key`, if `d` is an object holding one.
pub open spec fn json_get(d: JsonData, key: Seq<char>) -> Option<JsonData> {
    match d {
        JsonData::Obj { fields } => obj_lookup(fields, key),
        _ => None,
    }
}

/// An object entry bound to a non-negative number, or nothing when the
/// value is absent.
pub open spec fn opt_u64_entry(name: Seq<char>, v: Option<u64>) -> Seq<(Seq<char>, JsonData)> {
    match v {
        Option::Some(n) => seq![(name, JsonData::Num { n: n as int })],
        Option::None => Seq::empty(),
    }
}

/// An object entry bound to a signed number, or nothing when the value is
/// absent.
pub open spec fn opt_i64_entry(name: Seq<char>, v: Option<i64>) -> Seq<(Seq<char>, JsonData)> {
    match v {
        Option::Some(n) => seq![(name, JsonData::Num { n: n as int })],
        Option::None => Seq::empty(),
    }
}

/// The integer of `d` if it is a number in the unsigned 64-bit range.
pub open spec fn num_as_u64(d: JsonData) -> Option<u64> {
    match d {
        JsonData::Num { n } => if 0 <= n <= u64::MAX as int {
            Some(n as u64)
        } else {
            None
        },
        _ => None,
    }
}

/// The integer of `d` if it is a number in the signed 64-bit range.
pub open spec fn num_as_i64(d: JsonData) -> Option<i64> {
    match d {
        JsonData::Num { n } => if i64::MIN as int <= n <= i64::MAX as int {
            Some(n as i64)
        } else {
            None
        },
        _ => None,
    }
}

/// Equal copies of the elements of a JSON array, built afresh.
#[verifier::loop_isolation(false)]
pub fn copy_items(items: &Vec<JsonValue>) -> (r: Vec<JsonValue>)
    ensures
        items_model(r@) == items_model(items@),
        r@.len() == items@.len(),
    decreases items,
{
    let mut out: Vec<JsonValue> = Vec::new();
    let mut j: usize = 0;
    while j < items.len()
        invariant
            j <= items@.len(),
            out@.len() == j,
            forall|k: int| 0 <= k < j ==> out@[k]@ == #[trigger] items@[k]@,
        decreases items@.len() - j,
    {
        out.push(items[j].deep_copy());
        j += 1;
    }
    proof {
        broadcast use group_json_model_axioms;

        assert forall|k: int| 0 <= k < items@.len() implies items_model(out@)[k] == items_model(
            items@,
        )[k] by {}
        assert(items_model(out@) =~= items_model(items@));
    }
    out
}

/// Equal copies of the fields of a JSON object, built afresh.
#[verifier::loop_isolation(false)]
pub fn copy_fields(fields: &Vec<JsonField>) -> (r: Vec<JsonField>)
    ensures
        fields_model(r@) == fields_model(fields@),
        r@.len() == fields@.len(),
    decreases fields,
{
    let mut out: Vec<JsonField> = Vec::new();
    let mut j: usize = 0;
    while j < fields.len()
        invariant
            j <= fields@.len(),
            out@.len() == j,
            forall|k: int|
                0 <= k < j ==> (#[trigger] out@[k]).key@ == fields@[k].key@ && out@[k].val@
                    == fields@[k].val@,
        decreases fields@.len() - j,
    {
        let f = &fields[j];
        out.push(JsonField { key: f.key.clone(), val: f.val.deep_copy() });
        j += 1;
    }
    proof {
        broadcast use group_json_model_axioms;

        assert forall|k: int| 0 <= k < fields@.len() implies fields_model(out@)[k] == fields_model(
            fields@,
        )[k] by {}
        assert(fields_model(out@) =~= fields_model(fields@));
    }
    out
}

impl JsonValue {
    /// An equal tree, built afresh.
    pub fn deep_copy(&self) -> (r: JsonValue)
        ensures
            r@ == self@,
        decreases self,
    {
        match self {
            JsonValue::Null => JsonValue::Null,
            JsonValue::Bool(b) => JsonValue::Bool(*b),
            JsonValue::Num(n) => JsonValue::Num(*n),
            JsonValue::Float(t) => JsonValue::Float(t.clone()),
            JsonValue::Str(s) => JsonValue::Str(s.clone()),
            JsonValue::Arr(items) => JsonValue::Arr(copy_items(items)),
            JsonValue::Obj(fields) => JsonValue::Obj(copy_fields(fields)),
        }
    }

    /// The value of field `key` if this is an object holding one.
    #[verifier::loop_isolation(false)]
    pub fn get_field<'a>(&'a self, key: &str) -> (r: Option<&'a JsonValue>)
        ensures
            match r {
                Some(v) => json_get(self@, key@) == Some(v@),
                None => json_get(self@, key@) is None,
            },
    {
        broadcast use group_json_model_axioms;

        match self {
            JsonValue::Obj(fields) => {
                let ghost all = fields_model(fields@);
                let mut j: usize = 0;
                while j < fields.len()
                    invariant
                        j <= fields@.len(),
                        all.len() == fields@.len(),
                        forall|k: int|
                            0 <= k < fields@.len() ==> #[trigger] all[k] == (
                            fields@[k].key@,
                            fields@[k].val@,
                            ),
                        obj_lookup(all, key@) == obj_lookup_from(all, key@, j as int),
                    decreases fields@.len() - j,
                {
                    let f = &fields[j];
                    if str_eq(f.key.as_str(), key) {
                        return Some(&f.val);
                    }
                    j += 1;
                }
                None
            },
            _ => None,
        }
    }
}

/// Relies on str's `PartialEq`: two string slices are equal exactly when
/// their character sequences are.
#[verifier::external_body]
pub(crate) fn str_eq(a: &str, b: &str) -> (r: bool)
    ensures
        r == (a@ == b@),
{
    a == b
}

/// Relies on char's `Display` implementation: the string of exactly the one
/// character.
#[verifier::external_body]
pub(crate) fn char_to_string(c: char) -> (r: String)
    ensures
        r@ == seq![c],
{
    c.to_string()
}

/// The decimal digit character for `d` < 10.
pub open spec fn digit_char(d: int) -> char {
    if d == 0 {
        '0'
    } else if d == 1 {
        '1'
    } else if d == 2 {
        '2'
    } else if d == 3 {
        '3'
    } else if d == 4 {
        '4'
    } else if d == 5 {
        '5'
    } else if d == 6 {
        '6'
    } else if d == 7 {
        '7'
    } else if d == 8 {
        '8'
    } else {
        '9'
    }
}

/// The usual decimal rendering of a non-negative integer.
pub open spec fn decimal_of(n: int) -> Seq<char>
    decreases n,
{
    if n < 10 {
        seq![digit_char(n)]
    } else {
        decimal_of(n / 10) + seq![digit_char(n % 10)]
    }
}

/// Relies on u64's `Display` implementation: the decimal digits of the
/// number, most significant first, with no sign or padding.
#[verifier::external_body]
pub(crate) fn u64_to_string(n: u64) -> (r: String)
    ensures
        r@ == decimal_of(n as int),
{
    format!("{}", n)
}

/// What serde_json's parser makes of a text: the tree, or the line and
/// column of the syntax error. A function of the text alone.
pub uninterp spec fn json_of(s: Seq<char>) -> Result<JsonData, (int, int)>;

/// What serde_json's compact printer emits for a tree. A function of the
/// tree alone.
pub uninterp spec fn json_text(d: JsonData) -> Seq<char>;

#[verifier::external_type_specification]
#[verifier::external_body]
pub struct ExSerdeValue(serde_json::Value);

#[verifier::external_type_specification]
#[verifier::external_body]
pub struct ExSerdeNumber(serde_json::Number);

/// Relies on serde_json's `Value`: each JSON node is mirrored one-for-one
/// into this crate's tree (integers exactly; other numbers as their text).
/// Relies on serde_json's `Number`: an integer in either 64-bit range is
/// taken exactly, any other number as its decimal text.
#[verifier::external_body]
fn num_to_json(n: &serde_json::Number) -> JsonValue {
    match (n.as_u64(), n.as_i64()) {
        (Some(u), _) => JsonValue::Num(u as i128),
        (_, Some(i)) => JsonValue::Num(i as i128),
        _ => JsonValue::Float(n.to_string()),
    }
}

#[verifier::external_body]
fn value_to_json(v: &serde_json::Value) -> JsonValue {
    match v {
        serde_json::Value::Null => JsonValue::Null,
        serde_json::Value::Bool(b) => JsonValue::Bool(*b),
        serde_json::Value::Number(n) => num_to_json(n),
        serde_json::Value::String(s) => JsonValue::Str(s.clone()),
        serde_json::Value::Array(xs) => JsonValue::Arr(xs.iter().map(value_to_json).collect()),
        serde_json::Value::Object(m) => JsonValue::Obj(
            m.iter().map(|(k, x)| JsonField { key: k.clone(), val: value_to_json(x) }).collect(),
        ),
    }
}

/// Relies on serde_json's `Value`: the inverse mirroring of `value_to_json`.
/// Relies on serde_json's `Number`: an integer in either 64-bit range maps
/// to the number node; one outside both becomes `null`.
#[verifier::external_body]
fn num_to_value(n: i128) -> serde_json::Value {
    serde_json::Number::from_i128(n).map_or(serde_json::Value::Null, serde_json::Value::Number)
}

/// Relies on serde_json's `Number` parser: a carried number text maps back
/// to the number node it came from.
#[verifier::external_body]
fn float_to_value(t: &str) -> serde_json::Value {
    t.parse().map_or(serde_json::Value::Null, serde_json::Value::Number)
}

#[verifier::external_body]
fn json_to_value(v: &JsonValue) -> serde_json::Value {
    match v {
        JsonValue::Null => serde_json::Value::Null,
        JsonValue::Bool(b) => serde_json::Value::Bool(*b),
        JsonValue::Num(n) => num_to_value(*n),
        JsonValue::Float(t) => float_to_value(t.as_str()),
        JsonValue::Str(s) => serde_json::Value::String(s.clone()),
        JsonValue::Arr(xs) => serde_json::Value::Array(xs.iter().map(json_to_value).collect()),
        JsonValue::Obj(fs) => serde_json::Value::Object(
            fs.iter().map(|f| (f.key.clone(), json_to_value(&f.val))).collect(),
        ),
    }
}

/// Relies on serde_json::from_str: whether a text parses, and what it
/// parses to, depend on the text alone; a failure reports its line and
/// column.
#[verifier::external_body]
pub(crate) fn parse_json(s: &str) -> (r: Result<JsonValue, (u64, u64)>)
    ensures
        match r {
            Ok(v) => json_of(s@) matches Ok(d) && v@ == d,
            Err(p) => json_of(s@) matches Err(q) && q == (p.0 as int, p.1 as int),
        },
{
    match serde_json::from_str::<serde_json::Value>(s) {
        Ok(v) => Ok(value_to_json(&v)),
        Err(e) => Err((e.line() as u64, e.column() as u64)),
    }
}

/// Relies on serde_json::to_string on a `Value` built by `json_to_value`:
/// the compact rendering is a function of the tree alone.
#[verifier::external_body]
pub(crate) fn to_text(v: &JsonValue) -> (r: String)
    ensures
        r@ == json_text(v@),
{
    serde_json::to_string(&json_to_value(v)).unwrap_or_else(|_| String::new())
}

} // verus!
