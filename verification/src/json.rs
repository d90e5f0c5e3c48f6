//! A JSON tree of plain values, and the trusted parse boundary.
//!
//! Response bodies are parsed by `serde_json` behind [`parse_json`]; every
//! step after that — field lookup, type tests, extraction of strings,
//! booleans and integers — is verified code over [`Json`].

use vstd::prelude::*;

verus! {

/// A parsed JSON document. Numbers are kept as integers; a number that fits
/// neither `u64` nor `i64` (for instance a float) is [`Json::OtherNum`], which
/// no field extractor accepts.
pub enum Json {
    Null,
    Bool(bool),
    UInt(u64),
    Int(i64),
    OtherNum,
    Str(String),
    Arr(Vec<Json>),
    Obj(Vec<(String, Json)>),
}

/// What [`parse_json`] returns for a given input text: the JSON tree, or the
/// parser's error text. Parsing depends on the text alone.
pub uninterp spec fn json_parse(s: Seq<char>) -> Result<Json, String>;

#[verifier::external_type_specification]
#[verifier::external_body]
pub struct ExValue(serde_json::Value);

/// Converts a parsed `serde_json::Value` into the library's JSON tree, one
/// arm per variant. Integer numbers are read with `serde_json::Number::as_u64`
/// and `as_i64`; any other number becomes [`Json::OtherNum`].
#[verifier::external_body]
fn json_of_value(v: serde_json::Value) -> Json {
    match v {
        serde_json::Value::Null => Json::Null,
        serde_json::Value::Bool(b) => Json::Bool(b),
        serde_json::Value::Number(n) => match (n.as_u64(), n.as_i64()) {
            (Some(u), _) => Json::UInt(u),
            (None, Some(i)) => Json::Int(i),
            (None, None) => Json::OtherNum,
        },
        serde_json::Value::String(s) => Json::Str(s),
        serde_json::Value::Array(a) => Json::Arr(a.into_iter().map(json_of_value).collect()),
        serde_json::Value::Object(m) => Json::Obj(m.into_iter().map(|p| (p.0, json_of_value(p.1))).collect()),
    }
}

/// Relies on `serde_json::from_str::<serde_json::Value>`: the parse result is
/// a function of the input text alone (objects come back with unique keys in
/// a deterministic order), and on failure the error text comes from
/// `serde_json::Error`'s `Display`.
#[verifier::external_body]
pub(crate) fn parse_json(s: &str) -> (r: Result<Json, String>)
    ensures
        r == json_parse(s@),
{
    match serde_json::from_str::<serde_json::Value>(s) {
        Ok(v) => Ok(json_of_value(v)),
        Err(e) => Err(e.to_string()),
    }
}

/// The first binding of key `k` among the fields of a JSON object, scanning
/// from index `i` on.
pub open spec fn lookup_from(fs: Seq<(String, Json)>, k: Seq<char>, i: int) -> Option<Json>
    decreases fs.len() - i,
{
    if i < 0 || i >= fs.len() {
        None
    } else if fs[i].0@ == k {
        Some(fs[i].1)
    } else {
        lookup_from(fs, k, i + 1)
    }
}

/// The first binding of key `k` among the fields of a JSON object.
pub open spec fn lookup(fs: Seq<(String, Json)>, k: Seq<char>) -> Option<Json> {
    lookup_from(fs, k, 0)
}

/// The integer value of a JSON number, if it is one.
pub open spec fn int_of(j: Json) -> Option<int> {
    match j {
        Json::UInt(n) => Some(n as int),
        Json::Int(n) => Some(n as int),
        _ => None,
    }
}

/// A required string field: present and a string, or nothing.
pub open spec fn str_field(fs: Seq<(String, Json)>, k: Seq<char>) -> Option<String> {
    match lookup(fs, k) {
        Some(Json::Str(s)) => Some(s),
        _ => None,
    }
}

/// An optional string field: absent or `null` is an explicit "absent" marker,
/// a string is its value, anything else is a shape mismatch.
pub open spec fn opt_str_field(fs: Seq<(String, Json)>, k: Seq<char>) -> Option<Option<String>> {
    match lookup(fs, k) {
        None => Some(None),
        Some(Json::Null) => Some(None),
        Some(Json::Str(s)) => Some(Some(s)),
        Some(_) => None,
    }
}

/// A required boolean field.
pub open spec fn bool_field(fs: Seq<(String, Json)>, k: Seq<char>) -> Option<bool> {
    match lookup(fs, k) {
        Some(Json::Bool(b)) => Some(b),
        _ => None,
    }
}

/// An optional boolean field, as [`opt_str_field`] but for booleans.
pub open spec fn opt_bool_field(fs: Seq<(String, Json)>, k: Seq<char>) -> Option<Option<bool>> {
    match lookup(fs, k) {
        None => Some(None),
        Some(Json::Null) => Some(None),
        Some(Json::Bool(b)) => Some(Some(b)),
        Some(_) => None,
    }
}

/// A required integer field that must fit in `u16`.
pub open spec fn u16_field(fs: Seq<(String, Json)>, k: Seq<char>) -> Option<u16> {
    match lookup(fs, k) {
        Some(j) => match int_of(j) {
            Some(n) => if 0 <= n <= u16::MAX { Some(n as u16) } else { None },
            None => None,
        },
        None => None,
    }
}

/// A required integer field that must fit in `i8`.
pub open spec fn i8_field(fs: Seq<(String, Json)>, k: Seq<char>) -> Option<i8> {
    match lookup(fs, k) {
        Some(j) => match int_of(j) {
            Some(n) => if i8::MIN <= n <= i8::MAX { Some(n as i8) } else { None },
            None => None,
        },
        None => None,
    }
}

/// An optional integer field that must fit in `u32` when present.
pub open spec fn opt_u32_field(fs: Seq<(String, Json)>, k: Seq<char>) -> Option<Option<u32>> {
    match lookup(fs, k) {
        None => Some(None),
        Some(Json::Null) => Some(None),
        Some(j) => match int_of(j) {
            Some(n) => if 0 <= n <= u32::MAX { Some(Some(n as u32)) } else { None },
            None => None,
        },
    }
}

/// Finds the first field named `key`, as [`lookup`] describes.
pub fn obj_field<'a>(fields: &'a Vec<(String, Json)>, key: &str) -> (r: Option<&'a Json>)
    ensures
        match r {
            Some(v) => lookup(fields@, key@) == Some(*v),
            None => lookup(fields@, key@) is None,
        },
{
    let k = key.to_owned();
    let mut i: usize = 0;
    while i < fields.len()
        invariant
            0 <= i <= fields@.len(),
            k@ == key@,
            lookup(fields@, key@) == lookup_from(fields@, key@, i as int),
        decreases fields@.len() - i,
    {
        let pair = &fields[i];
        if pair.0 == k {
            return Some(&pair.1);
        }
        i = i + 1;
    }
    None
}

/// Extracts a required string field, as [`str_field`] describes.
pub fn req_string(fields: &Vec<(String, Json)>, key: &str) -> (r: Option<String>)
    ensures
        r == str_field(fields@, key@),
{
    match obj_field(fields, key) {
        Some(Json::Str(s)) => Some(s.clone()),
        _ => None,
    }
}

/// Extracts an optional string field, as [`opt_str_field`] describes.
pub fn opt_string(fields: &Vec<(String, Json)>, key: &str) -> (r: Option<Option<String>>)
    ensures
        r == opt_str_field(fields@, key@),
{
    match obj_field(fields, key) {
        None => Some(None),
        Some(Json::Null) => Some(None),
        Some(Json::Str(s)) => Some(Some(s.clone())),
        Some(_) => None,
    }
}

/// Extracts a required boolean field, as [`bool_field`] describes.
pub fn req_bool(fields: &Vec<(String, Json)>, key: &str) -> (r: Option<bool>)
    ensures
        r == bool_field(fields@, key@),
{
    match obj_field(fields, key) {
        Some(Json::Bool(b)) => Some(*b),
        _ => None,
    }
}

/// Extracts an optional boolean field, as [`opt_bool_field`] describes.
pub fn opt_bool(fields: &Vec<(String, Json)>, key: &str) -> (r: Option<Option<bool>>)
    ensures
        r == opt_bool_field(fields@, key@),
{
    match obj_field(fields, key) {
        None => Some(None),
        Some(Json::Null) => Some(None),
        Some(Json::Bool(b)) => Some(Some(*b)),
        Some(_) => None,
    }
}

/// Extracts a required `u16` field, as [`u16_field`] describes.
pub fn req_u16(fields: &Vec<(String, Json)>, key: &str) -> (r: Option<u16>)
    ensures
        r == u16_field(fields@, key@),
{
    match obj_field(fields, key) {
        Some(Json::UInt(n)) => if *n <= u16::MAX as u64 {
            Some(*n as u16)
        } else {
            None
        },
        Some(Json::Int(n)) => if 0 <= *n && *n <= u16::MAX as i64 {
            Some(*n as u16)
        } else {
            None
        },
        _ => None,
    }
}

/// Extracts a required `i8` field, as [`i8_field`] describes.
pub fn req_i8(fields: &Vec<(String, Json)>, key: &str) -> (r: Option<i8>)
    ensures
        r == i8_field(fields@, key@),
{
    match obj_field(fields, key) {
        Some(Json::UInt(n)) => if *n <= i8::MAX as u64 {
            Some(*n as i8)
        } else {
            None
        },
        Some(Json::Int(n)) => if i8::MIN as i64 <= *n && *n <= i8::MAX as i64 {
            Some(*n as i8)
        } else {
            None
        },
        _ => None,
    }
}

/// Extracts an optional `u32` field, as [`opt_u32_field`] describes.
pub fn opt_u32(fields: &Vec<(String, Json)>, key: &str) -> (r: Option<Option<u32>>)
    ensures
        r == opt_u32_field(fields@, key@),
{
    match obj_field(fields, key) {
        None => Some(None),
        Some(Json::Null) => Some(None),
        Some(Json::UInt(n)) => if *n <= u32::MAX as u64 {
            Some(Some(*n as u32))
        } else {
            None
        },
        Some(Json::Int(n)) => if 0 <= *n && *n <= u32::MAX as i64 {
            Some(Some(*n as u32))
        } else {
            None
        },
        _ => None,
    }
}

} // verus!
