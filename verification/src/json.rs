//! A plain JSON value tree owned by the library, with field lookup that
//! accepts two key spellings per field, and the trusted boundary to
//! `serde_json` for reading and writing JSON text.

use serde_json::Value;
use vstd::prelude::*;
use vstd::string::*;

use crate::error::CoreError;

verus! {

/// A JSON document as the library holds it: numbers are 64-bit integers,
/// since every numeric field of the upstream payloads is one; objects keep
/// their fields in order of appearance.
#[derive(Debug, PartialEq)]
pub enum JsonValue {
    Null,
    Bool(bool),
    Int(i64),
    Str(String),
    Arr(Vec<JsonValue>),
    Obj(Vec<(String, JsonValue)>),
}

/// The value of the first field named `name`, if any.
pub open spec fn lookup(fields: Seq<(String, JsonValue)>, name: Seq<char>) -> Option<JsonValue>
    decreases fields.len(),
{
    if fields.len() == 0 {
        None
    } else if fields[0].0@ == name {
        Some(fields[0].1)
    } else {
        lookup(fields.skip(1), name)
    }
}

/// Alias-tolerant lookup: the canonical name wins; the alias is consulted
/// only when no field carries the canonical name.
pub open spec fn field2(
    fields: Seq<(String, JsonValue)>,
    canonical: Seq<char>,
    alias: Seq<char>,
) -> Option<JsonValue> {
    match lookup(fields, canonical) {
        Some(v) => Some(v),
        None => lookup(fields, alias),
    }
}

/// Lookup finds the field at `i` when no earlier field carries the name.
pub proof fn lemma_lookup_found(fields: Seq<(String, JsonValue)>, i: int, name: Seq<char>)
    requires
        0 <= i < fields.len(),
        forall|j: int| 0 <= j < i ==> (#[trigger] fields[j]).0@ != name,
        fields[i].0@ == name,
    ensures
        lookup(fields, name) == Some(fields[i].1),
    decreases i,
{
    if i > 0 {
        assert(forall|j: int| 0 <= j < i - 1 ==> (#[trigger] fields.skip(1)[j]) == fields[j + 1]);
        assert(fields.skip(1)[i - 1] == fields[i]);
        lemma_lookup_found(fields.skip(1), i - 1, name);
    }
}

/// Finds the first field named `name`.
pub fn lookup_field<'a>(fields: &'a Vec<(String, JsonValue)>, name: &str) -> (r: Option<
    &'a JsonValue,
>)
    ensures
        match r {
            Some(v) => lookup(fields@, name@) == Some(*v),
            None => lookup(fields@, name@) is None,
        },
{
    let key = String::from_str(name);
    let mut i: usize = 0;
    proof {
        assert(fields@.skip(0) =~= fields@);
    }
    while i < fields.len()
        invariant
            0 <= i <= fields@.len(),
            key@ == name@,
            lookup(fields@, name@) == lookup(fields@.skip(i as int), name@),
        decreases fields@.len() - i,
    {
        proof {
            assert(fields@.skip(i as int)[0] == fields@[i as int]);
            assert(fields@.skip(i as int).skip(1) =~= fields@.skip(i as int + 1));
        }
        if fields[i].0 == key {
            return Some(&fields[i].1);
        }
        i = i + 1;
    }
    None
}

/// Finds a field under its canonical name, or failing that under its alias.
pub fn lookup_field2<'a>(
    fields: &'a Vec<(String, JsonValue)>,
    canonical: &str,
    alias: &str,
) -> (r: Option<&'a JsonValue>)
    ensures
        match r {
            Some(v) => field2(fields@, canonical@, alias@) == Some(*v),
            None => field2(fields@, canonical@, alias@) is None,
        },
{
    match lookup_field(fields, canonical) {
        Some(v) => Some(v),
        None => lookup_field(fields, alias),
    }
}

/// A looked-up field as a spec value.
pub open spec fn opt_deref(v: Option<&JsonValue>) -> Option<JsonValue> {
    match v {
        Some(x) => Some(*x),
        None => None,
    }
}

/// An optional string as its view.
pub open spec fn opt_str_view(o: Option<String>) -> Option<Seq<char>> {
    match o {
        Some(s) => Some(s@),
        None => None,
    }
}

/// A required text field: present and a string.
pub open spec fn text_of(v: Option<JsonValue>) -> Option<Seq<char>> {
    match v {
        Some(JsonValue::Str(s)) => Some(s@),
        _ => None,
    }
}

/// An optional text field: absence and null both mean unknown; any other
/// non-string value is a type error.
pub open spec fn opt_text_of(v: Option<JsonValue>) -> Option<Option<Seq<char>>> {
    match v {
        None => Some(None),
        Some(JsonValue::Null) => Some(None),
        Some(JsonValue::Str(s)) => Some(Some(s@)),
        Some(_) => None,
    }
}

/// An optional small signed integer field.
pub open spec fn opt_i8_of(v: Option<JsonValue>) -> Option<Option<i8>> {
    match v {
        None => Some(None),
        Some(JsonValue::Null) => Some(None),
        Some(JsonValue::Int(n)) => if -128 <= n <= 127 {
            Some(Some(n as i8))
        } else {
            None
        },
        Some(_) => None,
    }
}

/// An optional small unsigned integer field.
pub open spec fn opt_u8_of(v: Option<JsonValue>) -> Option<Option<u8>> {
    match v {
        None => Some(None),
        Some(JsonValue::Null) => Some(None),
        Some(JsonValue::Int(n)) => if 0 <= n <= 255 {
            Some(Some(n as u8))
        } else {
            None
        },
        Some(_) => None,
    }
}

/// A required unsigned 32-bit integer field.
pub open spec fn u32_of(v: Option<JsonValue>) -> Option<u32> {
    match v {
        Some(JsonValue::Int(n)) => if 0 <= n <= 0xffff_ffff {
            Some(n as u32)
        } else {
            None
        },
        _ => None,
    }
}

/// Reads a required text field.
pub fn get_text(v: Option<&JsonValue>) -> (r: Result<String, CoreError>)
    ensures
        match text_of(opt_deref(v)) {
            Some(m) => r matches Ok(s) && s@ == m,
            None => r matches Err(e) && e == CoreError::Deserialization,
        },
{
    match v {
        Some(JsonValue::Str(s)) => Ok(s.clone()),
        _ => Err(CoreError::Deserialization),
    }
}

/// Reads an optional text field.
pub fn get_opt_text(v: Option<&JsonValue>) -> (r: Result<Option<String>, CoreError>)
    ensures
        match opt_text_of(opt_deref(v)) {
            Some(m) => r matches Ok(o) && opt_str_view(o) == m,
            None => r matches Err(e) && e == CoreError::Deserialization,
        },
{
    match v {
        None => Ok(None),
        Some(JsonValue::Null) => Ok(None),
        Some(JsonValue::Str(s)) => Ok(Some(s.clone())),
        Some(_) => Err(CoreError::Deserialization),
    }
}

/// Reads an optional small signed integer field.
pub fn get_opt_i8(v: Option<&JsonValue>) -> (r: Result<Option<i8>, CoreError>)
    ensures
        match opt_i8_of(opt_deref(v)) {
            Some(m) => r matches Ok(o) && o == m,
            None => r matches Err(e) && e == CoreError::Deserialization,
        },
{
    match v {
        None => Ok(None),
        Some(JsonValue::Null) => Ok(None),
        Some(JsonValue::Int(n)) => {
            if -128 <= *n && *n <= 127 {
                Ok(Some(*n as i8))
            } else {
                Err(CoreError::Deserialization)
            }
        },
        Some(_) => Err(CoreError::Deserialization),
    }
}

/// Reads an optional small unsigned integer field.
pub fn get_opt_u8(v: Option<&JsonValue>) -> (r: Result<Option<u8>, CoreError>)
    ensures
        match opt_u8_of(opt_deref(v)) {
            Some(m) => r matches Ok(o) && o == m,
            None => r matches Err(e) && e == CoreError::Deserialization,
        },
{
    match v {
        None => Ok(None),
        Some(JsonValue::Null) => Ok(None),
        Some(JsonValue::Int(n)) => {
            if 0 <= *n && *n <= 255 {
                Ok(Some(*n as u8))
            } else {
                Err(CoreError::Deserialization)
            }
        },
        Some(_) => Err(CoreError::Deserialization),
    }
}

/// Reads a required unsigned 32-bit integer field.
pub fn get_u32(v: Option<&JsonValue>) -> (r: Result<u32, CoreError>)
    ensures
        match u32_of(opt_deref(v)) {
            Some(m) => r matches Ok(n) && n == m,
            None => r matches Err(e) && e == CoreError::Deserialization,
        },
{
    match v {
        Some(JsonValue::Int(n)) => {
            if 0 <= *n && *n <= 0xffff_ffff {
                Ok(*n as u32)
            } else {
                Err(CoreError::Deserialization)
            }
        },
        _ => Err(CoreError::Deserialization),
    }
}

/// The value tree that `json_from_text` reads out of a piece of text, or
/// `None` where the text is not JSON whose numbers all fit `i64`.
pub uninterp spec fn json_of_text(s: Seq<char>) -> Option<JsonValue>;

/// The text that `json_to_text` renders a value tree as.
pub uninterp spec fn text_of_json(v: JsonValue) -> Seq<char>;

#[verifier::external_type_specification]
#[verifier::external_body]
pub struct ExValue(serde_json::Value);

/// Relies on serde_json::Value: maps each variant onto the library's value
/// tree, one arm per variant; a number that is not a 64-bit integer is
/// rejected, as the upstream payloads carry none.
#[verifier::external_body]
fn value_to_json(v: serde_json::Value) -> (r: Result<JsonValue, CoreError>) {
    match v {
        Value::Null => Ok(JsonValue::Null),
        Value::Bool(b) => Ok(JsonValue::Bool(b)),
        Value::Number(n) => n.as_i64().map(JsonValue::Int).ok_or(CoreError::Deserialization),
        Value::String(s) => Ok(JsonValue::Str(s)),
        Value::Array(a) => Ok(JsonValue::Arr(a.into_iter().map(value_to_json).collect::<Result<_, _>>()?)),
        Value::Object(m) => Ok(JsonValue::Obj(
            m.into_iter().map(|(k, x)| Ok((k, value_to_json(x)?))).collect::<Result<_, _>>()?,
        )),
    }
}

/// Relies on serde_json::Value: rebuilds the corresponding variant for each
/// of the library's, one arm per variant.
#[verifier::external_body]
fn json_to_value(v: &JsonValue) -> serde_json::Value {
    match v {
        JsonValue::Null => Value::Null,
        JsonValue::Bool(b) => Value::Bool(*b),
        JsonValue::Int(n) => Value::Number(serde_json::Number::from(*n)),
        JsonValue::Str(s) => Value::String(s.clone()),
        JsonValue::Arr(a) => Value::Array(a.iter().map(json_to_value).collect()),
        JsonValue::Obj(f) => Value::Object(
            f.iter().map(|(k, x)| (k.clone(), json_to_value(x))).collect(),
        ),
    }
}

/// Relies on serde_json::from_str: parses JSON text, a function of the text
/// alone; the parse fails exactly where the text is not such a document.
#[verifier::external_body]
pub fn json_from_text(s: &str) -> (r: Result<JsonValue, CoreError>)
    ensures
        match json_of_text(s@) {
            Some(v) => r matches Ok(p) && p == v,
            None => r matches Err(e) && e == CoreError::Deserialization,
        },
{
    match serde_json::from_str::<serde_json::Value>(s) {
        Ok(v) => value_to_json(v),
        Err(_) => Err(CoreError::Deserialization),
    }
}

/// Relies on serde_json::to_string: renders a value tree as JSON text, a
/// function of the value alone; rendering a `Value` cannot fail.
#[verifier::external_body]
pub fn json_to_text(v: &JsonValue) -> (r: String)
    ensures
        r@ == text_of_json(*v),
{
    serde_json::to_string(&json_to_value(v)).unwrap_or_default()
}

} // verus!
