//! A JSON document tree, the parser that yields it, and member lookup.
use vstd::prelude::*;

use crate::text::str_eq;

verus! {

/// One JSON value. Objects keep their members in the order the parser gave
/// them; numbers that fit an `i64` are held as integers, any other number as
/// its literal text.
#[derive(Debug)]
pub enum Json {
    /// `null`.
    Null,
    /// `true` or `false`.
    Bool(bool),
    /// A number that fits an `i64`.
    Int(i64),
    /// Any other number, as its text.
    Number(String),
    /// A string.
    Str(String),
    /// An array.
    Array(Vec<Json>),
    /// An object, as its members.
    Object(Vec<(String, Json)>),
}

/// Why a JSON value could not be read as the expected record.
#[derive(Debug, PartialEq, Eq)]
pub enum DecodeError {
    /// A JSON object was expected and another value was found.
    NotObject,
    /// A required field is absent.
    MissingField(&'static str),
    /// A field is present with the wrong shape (type).
    WrongShape(&'static str),
    /// A member that the record does not read, where such members are denied.
    UnknownField(String),
    /// A closed enumeration field holds a value outside its known set; the raw value is kept.
    UnknownValue { field: &'static str, raw: String },
}

/// The tree that the JSON parser yields for `text`, or `None` when `text` is not JSON.
pub uninterp spec fn json_of_text(text: Seq<char>) -> Option<Json>;

/// Relies on `serde_json::from_str::<serde_json::Value>`: parses JSON text;
/// the tree is the parsed value, member for member. Empty text is no JSON
/// value (the parser reports an end of input while parsing a value).
#[verifier::external_body]
pub(crate) fn parse_json(text: &str) -> (r: Option<Json>)
    ensures
        r == json_of_text(text@),
        text@.len() == 0 ==> r is None,
{
    serde_json::from_str::<serde_json::Value>(text).ok().map(|v| tree_of_value(&v))
}

/// `serde_json::Value`, the parser's own tree; only [`tree_of_value`] reads it.
#[verifier::external_type_specification]
#[verifier::external_body]
pub struct ExJsonValue(serde_json::Value);

/// Relies on the variants of `serde_json::Value` and on `serde_json::Number::as_i64`:
/// converts a parsed value into the library's tree, one node for one node.
#[verifier::external_body]
fn tree_of_value(v: &serde_json::Value) -> Json {
    match v {
        serde_json::Value::Null => Json::Null,
        serde_json::Value::Bool(b) => Json::Bool(*b),
        serde_json::Value::Number(n) => match n.as_i64() {
            Some(i) => Json::Int(i),
            None => Json::Number(n.to_string()),
        },
        serde_json::Value::String(s) => Json::Str(s.clone()),
        serde_json::Value::Array(a) => Json::Array(a.iter().map(tree_of_value).collect()),
        serde_json::Value::Object(o) => Json::Object(
            o.iter().map(|(k, x)| (k.clone(), tree_of_value(x))).collect(),
        ),
    }
}

/// The value of the first member named `key`.
pub open spec fn member(fields: Seq<(String, Json)>, key: Seq<char>) -> Option<Json>
    decreases fields.len(),
{
    if fields.len() == 0 {
        None
    } else if fields[0].0@ == key {
        Some(fields[0].1)
    } else {
        member(fields.drop_first(), key)
    }
}

/// Looks up the first member named `key`.
pub fn get<'a>(fields: &'a Vec<(String, Json)>, key: &str) -> (r: Option<&'a Json>)
    ensures
        match r {
            Some(v) => member(fields@, key@) == Some(*v),
            None => member(fields@, key@) is None,
        },
{
    let mut i: usize = 0;
    assert(fields@.subrange(0, fields@.len() as int) == fields@);
    while i < fields.len()
        invariant
            i <= fields@.len(),
            member(fields@, key@) == member(fields@.subrange(i as int, fields@.len() as int), key@),
        decreases fields@.len() - i,
    {
        let ghost rest = fields@.subrange(i as int, fields@.len() as int);
        assert(rest.drop_first() == fields@.subrange(i + 1, fields@.len() as int));
        if str_eq(fields[i].0.as_str(), key) {
            return Some(&fields[i].1);
        }
        i = i + 1;
    }
    None
}

} // verus!
