//! A plain JSON value tree with a mathematical view, parsed from text
//! through the external JSON library, and verified helpers for reading it.

use vstd::prelude::*;
use crate::strutil::str_eq;

verus! {

/// A JSON value as plain data. Numbers are held as signed integers; the
/// wire payloads this client reads carry only integral numbers, and a
/// non-integral number parses as `Null`.
pub enum JsonValue {
    Null,
    Bool(bool),
    Int(i64),
    Str(String),
    Arr(Vec<JsonValue>),
    Obj(Vec<(String, JsonValue)>),
}

/// The mathematical view of a JSON value.
pub enum JsonVal {
    Null,
    Bool(bool),
    Int(int),
    Str(Seq<char>),
    Arr(Seq<JsonVal>),
    Obj(Seq<(Seq<char>, JsonVal)>),
}

pub open spec fn jv_view(v: JsonValue) -> JsonVal
    decreases v, 0int,
{
    match v {
        JsonValue::Null => JsonVal::Null,
        JsonValue::Bool(b) => JsonVal::Bool(b),
        JsonValue::Int(n) => JsonVal::Int(n as int),
        JsonValue::Str(s) => JsonVal::Str(s@),
        JsonValue::Arr(items) => JsonVal::Arr(jv_arr_view(items@, 0)),
        JsonValue::Obj(fields) => JsonVal::Obj(jv_obj_view(fields@, 0)),
    }
}

pub open spec fn jv_arr_view(s: Seq<JsonValue>, i: int) -> Seq<JsonVal>
    decreases s, s.len() - i,
{
    if i < 0 || i >= s.len() {
        Seq::empty()
    } else {
        seq![jv_view(s[i])] + jv_arr_view(s, i + 1)
    }
}

pub open spec fn jv_obj_view(s: Seq<(String, JsonValue)>, i: int) -> Seq<(Seq<char>, JsonVal)>
    decreases s, s.len() - i,
{
    if i < 0 || i >= s.len() {
        Seq::empty()
    } else {
        seq![(s[i].0@, jv_view(s[i].1))] + jv_obj_view(s, i + 1)
    }
}

impl View for JsonValue {
    type V = JsonVal;

    open spec fn view(&self) -> JsonVal {
        jv_view(*self)
    }
}

pub broadcast proof fn lemma_jv_arr_view(s: Seq<JsonValue>, i: int)
    requires
        0 <= i <= s.len(),
    ensures
        (#[trigger] jv_arr_view(s, i)).len() == s.len() - i,
        forall|j: int| 0 <= j < s.len() - i ==> jv_arr_view(s, i)[j] == jv_view(s[i + j]),
    decreases s.len() - i,
{
    if i < s.len() {
        lemma_jv_arr_view(s, i + 1);
    }
}

pub broadcast proof fn lemma_jv_obj_view(s: Seq<(String, JsonValue)>, i: int)
    requires
        0 <= i <= s.len(),
    ensures
        (#[trigger] jv_obj_view(s, i)).len() == s.len() - i,
        forall|j: int|
            0 <= j < s.len() - i ==> jv_obj_view(s, i)[j] == (s[i + j].0@, jv_view(s[i + j].1)),
    decreases s.len() - i,
{
    if i < s.len() {
        lemma_jv_obj_view(s, i + 1);
    }
}

// --------------------------------------------------------------------------
// Parsing, through the external JSON library
// --------------------------------------------------------------------------

#[verifier::external_type_specification]
#[verifier::external_body]
pub struct ExSerdeJsonValue(serde_json::Value);

/// The JSON tree that `s` parses to, or nothing when `s` is not valid JSON;
/// a function of the text alone.
pub uninterp spec fn json_of(s: Seq<char>) -> Option<JsonVal>;

/// The JSON tree that a parsed external value holds.
pub uninterp spec fn value_rep(v: serde_json::Value) -> JsonVal;

/// Relies on serde_json::from_str::<serde_json::Value>: parses text into a
/// generic JSON value; the outcome is a function of the text alone.
#[verifier::external_body]
fn parse_value(s: &str) -> (r: Option<serde_json::Value>)
    ensures
        r matches Some(v) ==> Some(value_rep(v)) == json_of(s@),
        r is None ==> json_of(s@) is None,
{
    serde_json::from_str(s).ok()
}

/// Relies on the variants of serde_json::Value: converts the external value
/// tree into the library's own, one arm per variant, moving the contents; a
/// number that is not a signed 64-bit integer becomes `Null`.
#[verifier::external_body]
fn value_to_tree(v: &serde_json::Value) -> (r: JsonValue)
    ensures
        r@ == value_rep(*v),
{
    match v {
        serde_json::Value::Null => JsonValue::Null,
        serde_json::Value::Bool(b) => JsonValue::Bool(*b),
        serde_json::Value::Number(n) => match n.as_i64() {
            Some(i) => JsonValue::Int(i),
            None => JsonValue::Null,
        },
        serde_json::Value::String(s) => JsonValue::Str(s.clone()),
        serde_json::Value::Array(a) => JsonValue::Arr(a.iter().map(value_to_tree).collect()),
        serde_json::Value::Object(m) => JsonValue::Obj(
            m.iter().map(|p| (p.0.clone(), value_to_tree(p.1))).collect(),
        ),
    }
}

/// Parses text into the library's JSON tree, or nothing when the text is
/// not valid JSON.
pub fn parse_json(s: &str) -> (r: Option<JsonValue>)
    ensures
        r matches Some(v) ==> Some(v@) == json_of(s@),
        r is None ==> json_of(s@) is None,
{
    match parse_value(s) {
        Option::Some(v) => Option::Some(value_to_tree(&v)),
        Option::None => Option::None,
    }
}

// --------------------------------------------------------------------------
// Reading object fields
// --------------------------------------------------------------------------

/// The value of the first field named `key`, scanning from `i`.
pub open spec fn obj_get_i(fields: Seq<(Seq<char>, JsonVal)>, key: Seq<char>, i: int) -> Option<
    JsonVal,
>
    decreases fields.len() - i,
{
    if i < 0 || i >= fields.len() {
        Option::None
    } else if fields[i].0 == key {
        Option::Some(fields[i].1)
    } else {
        obj_get_i(fields, key, i + 1)
    }
}

/// The value of the first field named `key`, or nothing.
pub open spec fn obj_get(fields: Seq<(Seq<char>, JsonVal)>, key: Seq<char>) -> Option<JsonVal> {
    obj_get_i(fields, key, 0)
}

/// Looks up the first field named `key` in an object's field list.
pub fn get_field<'a>(fields: &'a Vec<(String, JsonValue)>, key: &str) -> (r: Option<
    &'a JsonValue,
>)
    ensures
        r matches Some(v) ==> obj_get(jv_obj_view(fields@, 0), key@) == Some(v@),
        r is None ==> obj_get(jv_obj_view(fields@, 0), key@) is None,
{
    proof {
        lemma_jv_obj_view(fields@, 0);
    }
    let ghost fv = jv_obj_view(fields@, 0);
    let mut i: usize = 0;
    while i < fields.len()
        invariant
            i <= fields@.len(),
            fv == jv_obj_view(fields@, 0),
            fv.len() == fields@.len(),
            forall|j: int| 0 <= j < fv.len() ==> fv[j] == (fields@[j].0@, jv_view(fields@[j].1)),
            obj_get_i(fv, key@, 0) == obj_get_i(fv, key@, i as int),
        decreases fields@.len() - i,
    {
        if str_eq(fields[i].0.as_str(), key) {
            proof {
                assert(obj_get_i(fv, key@, i as int) == Some(fv[i as int].1));
            }
            return Option::Some(&fields[i].1);
        }
        i = i + 1;
    }
    Option::None
}

// --------------------------------------------------------------------------
// Typed field readers
// --------------------------------------------------------------------------

/// The text of the field named `key`, when it exists and holds text.
pub open spec fn str_field(fields: Seq<(Seq<char>, JsonVal)>, key: Seq<char>) -> Option<
    Seq<char>,
> {
    match obj_get(fields, key) {
        Option::Some(JsonVal::Str(s)) => Option::Some(s),
        _ => Option::None,
    }
}

/// The boolean of the field named `key`, when it exists and holds one.
pub open spec fn bool_field(fields: Seq<(Seq<char>, JsonVal)>, key: Seq<char>) -> Option<bool> {
    match obj_get(fields, key) {
        Option::Some(JsonVal::Bool(b)) => Option::Some(b),
        _ => Option::None,
    }
}

/// The integer of the field named `key`, when it exists and holds one.
pub open spec fn int_field(fields: Seq<(Seq<char>, JsonVal)>, key: Seq<char>) -> Option<int> {
    match obj_get(fields, key) {
        Option::Some(JsonVal::Int(n)) => Option::Some(n),
        _ => Option::None,
    }
}

pub open spec fn opt_seq_view(o: Option<String>) -> Option<Seq<char>> {
    match o {
        Option::Some(s) => Option::Some(s@),
        Option::None => Option::None,
    }
}

/// Reads a text field from an object's field list.
pub fn field_str(fields: &Vec<(String, JsonValue)>, key: &str) -> (r: Option<String>)
    ensures
        opt_seq_view(r) == str_field(jv_obj_view(fields@, 0), key@),
{
    match get_field(fields, key) {
        Option::Some(v) => match v {
            JsonValue::Str(s) => Option::Some(s.clone()),
            _ => Option::None,
        },
        Option::None => Option::None,
    }
}

/// Reads a boolean field from an object's field list.
pub fn field_bool(fields: &Vec<(String, JsonValue)>, key: &str) -> (r: Option<bool>)
    ensures
        r == bool_field(jv_obj_view(fields@, 0), key@),
{
    match get_field(fields, key) {
        Option::Some(v) => match v {
            JsonValue::Bool(b) => Option::Some(*b),
            _ => Option::None,
        },
        Option::None => Option::None,
    }
}

/// The integer of the field named `key`, when it exists, holds one, and
/// fits an unsigned 32-bit value.
pub open spec fn u32_field(fields: Seq<(Seq<char>, JsonVal)>, key: Seq<char>) -> Option<u32> {
    match int_field(fields, key) {
        Option::Some(n) => if 0 <= n <= u32::MAX {
            Option::Some(n as u32)
        } else {
            Option::None
        },
        Option::None => Option::None,
    }
}

/// Reads an unsigned 32-bit integer field from an object's field list.
pub fn field_u32(fields: &Vec<(String, JsonValue)>, key: &str) -> (r: Option<u32>)
    ensures
        r == u32_field(jv_obj_view(fields@, 0), key@),
{
    match get_field(fields, key) {
        Option::Some(v) => match v {
            JsonValue::Int(n) => {
                let n = *n;
                if 0 <= n && n <= u32::MAX as i64 {
                    Option::Some(n as u32)
                } else {
                    Option::None
                }
            },
            _ => Option::None,
        },
        Option::None => Option::None,
    }
}

} // verus!
