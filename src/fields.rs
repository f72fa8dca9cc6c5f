//! Typed readers for the members of a JSON object.
//!
//! Each reader `read_*` has a spec function `*_member` that says, from the
//! object's members alone, which value or which error the reader yields.
use vstd::prelude::*;

use crate::json::{get, member, DecodeError, Json};
use crate::timestamp::{timestamp_accepted, Timestamp};

verus! {

/// The error of an outcome, if it failed.
pub open spec fn err_of<T>(r: Result<T, DecodeError>) -> Option<DecodeError> {
    match r {
        Ok(_) => None,
        Err(e) => Some(e),
    }
}

/// The first of two errors.
pub open spec fn either(a: Option<DecodeError>, b: Option<DecodeError>) -> Option<DecodeError> {
    if a is Some {
        a
    } else {
        b
    }
}

/// The first member whose name `known` does not hold, as an unknown-field error.
pub open spec fn first_unknown(o: Seq<(String, Json)>, known: spec_fn(Seq<char>) -> bool) -> Option<DecodeError>
    decreases o.len(),
{
    if o.len() == 0 {
        None
    } else if !known(o[0].0@) {
        Some(DecodeError::UnknownField(o[0].0))
    } else {
        first_unknown(o.drop_first(), known)
    }
}

/// A required string.
pub open spec fn str_member(o: Seq<(String, Json)>, key: &'static str) -> Result<String, DecodeError> {
    match member(o, key@) {
        Some(Json::Str(s)) => Ok(s),
        Some(_) => Err(DecodeError::WrongShape(key)),
        None => Err(DecodeError::MissingField(key)),
    }
}

pub fn read_str(o: &Vec<(String, Json)>, key: &'static str) -> (r: Result<String, DecodeError>)
    ensures
        r == str_member(o@, key),
{
    match get(o, key) {
        Some(Json::Str(s)) => Ok(s.clone()),
        Some(_) => Err(DecodeError::WrongShape(key)),
        None => Err(DecodeError::MissingField(key)),
    }
}

/// An optional string: absent and `null` both read as `None`.
pub open spec fn opt_str_member(o: Seq<(String, Json)>, key: &'static str) -> Result<Option<String>, DecodeError> {
    match member(o, key@) {
        None => Ok(None),
        Some(Json::Null) => Ok(None),
        Some(Json::Str(s)) => Ok(Some(s)),
        Some(_) => Err(DecodeError::WrongShape(key)),
    }
}

pub fn read_opt_str(o: &Vec<(String, Json)>, key: &'static str) -> (r: Result<Option<String>, DecodeError>)
    ensures
        r == opt_str_member(o@, key),
{
    match get(o, key) {
        None => Ok(None),
        Some(Json::Null) => Ok(None),
        Some(Json::Str(s)) => Ok(Some(s.clone())),
        Some(_) => Err(DecodeError::WrongShape(key)),
    }
}

/// A string where absent, `null` and the empty string all mean "no value".
pub open spec fn blank_str_member(o: Seq<(String, Json)>, key: &'static str) -> Result<Option<String>, DecodeError> {
    match member(o, key@) {
        None => Ok(None),
        Some(Json::Null) => Ok(None),
        Some(Json::Str(s)) => if s@.len() == 0 { Ok(None) } else { Ok(Some(s)) },
        Some(_) => Err(DecodeError::WrongShape(key)),
    }
}

pub fn read_blank_str(o: &Vec<(String, Json)>, key: &'static str) -> (r: Result<Option<String>, DecodeError>)
    ensures
        r == blank_str_member(o@, key),
{
    match get(o, key) {
        None => Ok(None),
        Some(Json::Null) => Ok(None),
        Some(Json::Str(s)) => {
            if s.as_str().unicode_len() == 0 {
                Ok(None)
            } else {
                Ok(Some(s.clone()))
            }
        },
        Some(_) => Err(DecodeError::WrongShape(key)),
    }
}

/// A required integer.
pub open spec fn int_member(o: Seq<(String, Json)>, key: &'static str) -> Result<i64, DecodeError> {
    match member(o, key@) {
        Some(Json::Int(i)) => Ok(i),
        Some(_) => Err(DecodeError::WrongShape(key)),
        None => Err(DecodeError::MissingField(key)),
    }
}

pub fn read_int(o: &Vec<(String, Json)>, key: &'static str) -> (r: Result<i64, DecodeError>)
    ensures
        r == int_member(o@, key),
{
    match get(o, key) {
        Some(Json::Int(i)) => Ok(*i),
        Some(_) => Err(DecodeError::WrongShape(key)),
        None => Err(DecodeError::MissingField(key)),
    }
}

/// An optional integer: absent and `null` both read as `None`.
pub open spec fn opt_int_member(o: Seq<(String, Json)>, key: &'static str) -> Result<Option<i64>, DecodeError> {
    match member(o, key@) {
        None => Ok(None),
        Some(Json::Null) => Ok(None),
        Some(Json::Int(i)) => Ok(Some(i)),
        Some(_) => Err(DecodeError::WrongShape(key)),
    }
}

pub fn read_opt_int(o: &Vec<(String, Json)>, key: &'static str) -> (r: Result<Option<i64>, DecodeError>)
    ensures
        r == opt_int_member(o@, key),
{
    match get(o, key) {
        None => Ok(None),
        Some(Json::Null) => Ok(None),
        Some(Json::Int(i)) => Ok(Some(*i)),
        Some(_) => Err(DecodeError::WrongShape(key)),
    }
}

/// A required boolean.
pub open spec fn bool_member(o: Seq<(String, Json)>, key: &'static str) -> Result<bool, DecodeError> {
    match member(o, key@) {
        Some(Json::Bool(b)) => Ok(b),
        Some(_) => Err(DecodeError::WrongShape(key)),
        None => Err(DecodeError::MissingField(key)),
    }
}

pub fn read_bool(o: &Vec<(String, Json)>, key: &'static str) -> (r: Result<bool, DecodeError>)
    ensures
        r == bool_member(o@, key),
{
    match get(o, key) {
        Some(Json::Bool(b)) => Ok(*b),
        Some(_) => Err(DecodeError::WrongShape(key)),
        None => Err(DecodeError::MissingField(key)),
    }
}

/// A boolean that reads as `false` when absent.
pub open spec fn flag_member(o: Seq<(String, Json)>, key: &'static str) -> Result<bool, DecodeError> {
    match member(o, key@) {
        None => Ok(false),
        Some(Json::Bool(b)) => Ok(b),
        Some(_) => Err(DecodeError::WrongShape(key)),
    }
}

pub fn read_flag(o: &Vec<(String, Json)>, key: &'static str) -> (r: Result<bool, DecodeError>)
    ensures
        r == flag_member(o@, key),
{
    match get(o, key) {
        None => Ok(false),
        Some(Json::Bool(b)) => Ok(*b),
        Some(_) => Err(DecodeError::WrongShape(key)),
    }
}

/// Whether every item is a string.
pub open spec fn all_strs(items: Seq<Json>) -> bool {
    forall|i: int| 0 <= i < items.len() ==> (#[trigger] items[i]) is Str
}

/// The strings of a list of string items.
pub open spec fn strs_of(items: Seq<Json>) -> Seq<String> {
    items.map_values(|j: Json| j->Str_0)
}

/// The strings of an array, or the error for `key` when an item is not a string.
pub open spec fn str_items(items: Seq<Json>, key: &'static str) -> Result<Seq<String>, DecodeError> {
    if all_strs(items) {
        Ok(strs_of(items))
    } else {
        Err(DecodeError::WrongShape(key))
    }
}

/// A required array of strings.
pub open spec fn str_list_member(o: Seq<(String, Json)>, key: &'static str) -> Result<Seq<String>, DecodeError> {
    match member(o, key@) {
        Some(Json::Array(items)) => str_items(items@, key),
        Some(_) => Err(DecodeError::WrongShape(key)),
        None => Err(DecodeError::MissingField(key)),
    }
}

/// An array of strings where `null` reads as the empty list.
pub open spec fn str_list_or_empty_member(o: Seq<(String, Json)>, key: &'static str) -> Result<Seq<String>, DecodeError> {
    match member(o, key@) {
        Some(Json::Null) => Ok(Seq::empty()),
        _ => str_list_member(o, key),
    }
}

/// Holds when the exec list outcome `r` is the spec outcome `s`.
pub open spec fn list_outcome<T>(r: Result<Vec<T>, DecodeError>, s: Result<Seq<T>, DecodeError>) -> bool {
    match s {
        Ok(items) => r is Ok && r->Ok_0@ == items,
        Err(e) => r == Err::<Vec<T>, DecodeError>(e),
    }
}

fn strings_of(items: &Vec<Json>, key: &'static str) -> (r: Result<Vec<String>, DecodeError>)
    ensures
        list_outcome(r, str_items(items@, key)),
{
    let mut out: Vec<String> = Vec::new();
    let mut i: usize = 0;
    while i < items.len()
        invariant
            i <= items@.len(),
            out@.len() == i,
            forall|k: int| 0 <= k < i ==> (#[trigger] items@[k]) is Str && out@[k] == items@[k]->Str_0,
        decreases items@.len() - i,
    {
        match &items[i] {
            Json::Str(s) => out.push(s.clone()),
            _ => return Err(DecodeError::WrongShape(key)),
        }
        i = i + 1;
    }
    assert(out@ == strs_of(items@));
    Ok(out)
}

pub fn read_str_list(o: &Vec<(String, Json)>, key: &'static str) -> (r: Result<Vec<String>, DecodeError>)
    ensures
        list_outcome(r, str_list_member(o@, key)),
{
    match get(o, key) {
        Some(Json::Array(items)) => strings_of(items, key),
        Some(_) => Err(DecodeError::WrongShape(key)),
        None => Err(DecodeError::MissingField(key)),
    }
}

pub fn read_str_list_or_empty(o: &Vec<(String, Json)>, key: &'static str) -> (r: Result<Vec<String>, DecodeError>)
    ensures
        list_outcome(r, str_list_or_empty_member(o@, key)),
{
    match get(o, key) {
        Some(Json::Null) => Ok(Vec::new()),
        _ => read_str_list(o, key),
    }
}

/// A required timestamp, as the text it is read from.
pub open spec fn timestamp_member(o: Seq<(String, Json)>, key: &'static str) -> Result<Seq<char>, DecodeError> {
    match member(o, key@) {
        Some(Json::Str(s)) => if timestamp_accepted(s@) { Ok(s@) } else { Err(DecodeError::WrongShape(key)) },
        Some(_) => Err(DecodeError::WrongShape(key)),
        None => Err(DecodeError::MissingField(key)),
    }
}

pub fn read_timestamp(o: &Vec<(String, Json)>, key: &'static str) -> (r: Result<Timestamp, DecodeError>)
    ensures
        match timestamp_member(o@, key) {
            Ok(t) => r is Ok && r->Ok_0@ == t,
            Err(e) => r == Err::<Timestamp, DecodeError>(e),
        },
{
    match read_str(o, key) {
        Ok(s) => match Timestamp::new(s) {
            Some(t) => Ok(t),
            None => Err(DecodeError::WrongShape(key)),
        },
        Err(e) => Err(e),
    }
}

/// A timestamp where absent, `null` and the empty string all mean "no value".
pub open spec fn blank_timestamp_member(o: Seq<(String, Json)>, key: &'static str) -> Result<Option<Seq<char>>, DecodeError> {
    match blank_str_member(o, key) {
        Ok(Some(s)) => if timestamp_accepted(s@) { Ok(Some(s@)) } else { Err(DecodeError::WrongShape(key)) },
        Ok(None) => Ok(None),
        Err(e) => Err(e),
    }
}

/// The view of an optional timestamp.
pub open spec fn opt_view(t: Option<Timestamp>) -> Option<Seq<char>> {
    match t {
        Some(x) => Some(x@),
        None => None,
    }
}

pub fn read_blank_timestamp(o: &Vec<(String, Json)>, key: &'static str) -> (r: Result<Option<Timestamp>, DecodeError>)
    ensures
        match blank_timestamp_member(o@, key) {
            Ok(t) => r is Ok && opt_view(r->Ok_0) == t,
            Err(e) => r == Err::<Option<Timestamp>, DecodeError>(e),
        },
{
    match read_blank_str(o, key) {
        Ok(Some(s)) => match Timestamp::new(s) {
            Some(t) => Ok(Some(t)),
            None => Err(DecodeError::WrongShape(key)),
        },
        Ok(None) => Ok(None),
        Err(e) => Err(e),
    }
}

/// A required object, as its members.
pub open spec fn object_member(o: Seq<(String, Json)>, key: &'static str) -> Result<Seq<(String, Json)>, DecodeError> {
    match member(o, key@) {
        Some(Json::Object(m)) => Ok(m@),
        Some(_) => Err(DecodeError::WrongShape(key)),
        None => Err(DecodeError::MissingField(key)),
    }
}

pub fn read_object<'a>(o: &'a Vec<(String, Json)>, key: &'static str) -> (r: Result<&'a Vec<(String, Json)>, DecodeError>)
    ensures
        match object_member(o@, key) {
            Ok(m) => r is Ok && r->Ok_0@ == m,
            Err(e) => r == Err::<&Vec<(String, Json)>, DecodeError>(e),
        },
{
    match get(o, key) {
        Some(Json::Object(m)) => Ok(m),
        Some(_) => Err(DecodeError::WrongShape(key)),
        None => Err(DecodeError::MissingField(key)),
    }
}

/// The JSON form of an optional string: `null` for none.
pub fn opt_str_json(v: &Option<String>) -> (r: Json)
    ensures
        match v {
            Some(s) => r == Json::Str(*s),
            None => r == Json::Null,
        },
{
    match v {
        Some(s) => Json::Str(s.clone()),
        None => Json::Null,
    }
}

/// The JSON form of an optional integer: `null` for none.
pub fn opt_int_json(v: &Option<i64>) -> (r: Json)
    ensures
        match v {
            Some(i) => r == Json::Int(*i),
            None => r == Json::Null,
        },
{
    match v {
        Some(i) => Json::Int(*i),
        None => Json::Null,
    }
}

/// The JSON form of a list of strings: an array of string items.
pub fn str_list_json(v: &Vec<String>) -> (r: Json)
    ensures
        r matches Json::Array(items) && all_strs(items@) && strs_of(items@) == v@,
{
    let mut items: Vec<Json> = Vec::new();
    let mut i: usize = 0;
    while i < v.len()
        invariant
            i <= v@.len(),
            items@.len() == i,
            forall|k: int| 0 <= k < i ==> (#[trigger] items@[k]) == Json::Str(v@[k]),
        decreases v@.len() - i,
    {
        items.push(Json::Str(v[i].clone()));
        i = i + 1;
    }
    assert(strs_of(items@) == v@);
    Json::Array(items)
}

/// A required string that may come under either of two names; the first wins.
pub open spec fn alias_str_member(o: Seq<(String, Json)>, key: &'static str, alias: &'static str) -> Result<String, DecodeError> {
    match member(o, key@) {
        Some(_) => str_member(o, key),
        None => match member(o, alias@) {
            Some(_) => str_member(o, alias),
            None => Err(DecodeError::MissingField(key)),
        },
    }
}

pub fn read_alias_str(o: &Vec<(String, Json)>, key: &'static str, alias: &'static str) -> (r: Result<String, DecodeError>)
    ensures
        r == alias_str_member(o@, key, alias),
{
    match get(o, key) {
        Some(_) => read_str(o, key),
        None => match get(o, alias) {
            Some(_) => read_str(o, alias),
            None => Err(DecodeError::MissingField(key)),
        },
    }
}

} // verus!
