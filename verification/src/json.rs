//! A plain JSON tree and the lookups the JSON adapter performs on it, with a
//! trusted parser at the boundary.
use vstd::prelude::*;
use crate::text::str_eq;

verus! {

/// A JSON value as the library holds it: every field the logic reads is a
/// plain value. A number that has no `i64` form is kept only as `NumOther`,
/// since no adapter reads more of it.
pub enum Json {
    Null,
    Bool(bool),
    Int(i64),
    NumOther,
    Str(String),
    Arr(Vec<Json>),
    Obj(Vec<(String, Json)>),
}

#[verifier::external_type_specification]
#[verifier::external_body]
pub struct ExValue(serde_json::Value);

/// What parsing `s` as JSON yields: `None` exactly when `s` is not valid
/// JSON, otherwise the tree.
pub uninterp spec fn json_of(s: Seq<char>) -> Option<Json>;

/// Maps each `serde_json::Value` variant onto the library's own tree, one
/// arm per variant; a number keeps its `i64` value when it has one. Exists
/// only as the conversion step of `parse_json` below.
#[verifier::external_body]
fn json_from_value(v: &serde_json::Value) -> (r: Json) {
    match v {
        serde_json::Value::Null => Json::Null,
        serde_json::Value::Bool(b) => Json::Bool(*b),
        serde_json::Value::Number(n) => match n.as_i64() {
            Some(i) => Json::Int(i),
            None => Json::NumOther,
        },
        serde_json::Value::String(s) => Json::Str(s.clone()),
        serde_json::Value::Array(a) => Json::Arr(a.iter().map(json_from_value).collect()),
        serde_json::Value::Object(m) => Json::Obj(
            m.iter().map(|(k, x)| (k.clone(), json_from_value(x))).collect(),
        ),
    }
}

/// Relies on `serde_json::from_str`: `None` exactly when `s` is not valid
/// JSON, otherwise the parsed tree carried over by `json_from_value`. The
/// result depends on the characters of `s` alone.
#[verifier::external_body]
pub(crate) fn parse_json(s: &str) -> (r: Option<Json>)
    ensures
        r == json_of(s@),
{
    match serde_json::from_str::<serde_json::Value>(s) {
        Ok(v) => Some(json_from_value(&v)),
        Err(_) => None,
    }
}

/// The value under `key` in a field list: the first pair whose key matches.
pub open spec fn obj_lookup(fields: Seq<(String, Json)>, key: Seq<char>) -> Option<Json>
    decreases fields.len(),
{
    if fields.len() == 0 {
        None
    } else if fields[0].0@ == key {
        Some(fields[0].1)
    } else {
        obj_lookup(fields.drop_first(), key)
    }
}

/// The value under `key`: `None` unless `j` is an object with that key.
pub open spec fn jget(j: Json, key: Seq<char>) -> Option<Json> {
    match j {
        Json::Obj(o) => obj_lookup(o@, key),
        _ => None,
    }
}

/// The string behind an optional value, or `default` when it is absent or
/// not a string.
pub open spec fn jstr_or(o: Option<Json>, default: Seq<char>) -> Seq<char> {
    match o {
        Some(Json::Str(s)) => s@,
        _ => default,
    }
}

/// The elements behind an optional value, when it is an array.
pub open spec fn jarr_of(o: Option<Json>) -> Option<Seq<Json>> {
    match o {
        Some(Json::Arr(a)) => Some(a@),
        _ => None,
    }
}

/// The `i64` behind an optional value, or `default` when it is absent or
/// has no `i64` form.
pub open spec fn jint_or(o: Option<Json>, default: i64) -> i64 {
    match o {
        Some(Json::Int(i)) => i,
        _ => default,
    }
}

/// Looks `key` up in `j`, proved against `jget`.
pub fn json_get<'a>(j: &'a Json, key: &str) -> (r: Option<&'a Json>)
    ensures
        match r {
            Some(x) => jget(*j, key@) == Some(*x),
            None => jget(*j, key@) is None,
        },
{
    match j {
        Json::Obj(fields) => {
            let n = fields.len();
            let mut i: usize = 0;
            proof {
                assert(fields@.skip(0) =~= fields@);
            }
            while i < n
                invariant
                    0 <= i <= n,
                    n == fields@.len(),
                    jget(*j, key@) == obj_lookup(fields@, key@),
                    obj_lookup(fields@, key@) == obj_lookup(fields@.skip(i as int), key@),
                decreases n - i,
            {
                if str_eq(fields[i].0.as_str(), key) {
                    proof {
                        assert(fields@.skip(i as int).len() > 0);
                        assert(fields@.skip(i as int)[0] == fields@[i as int]);
                        assert(fields@[i as int].0@ == key@);
                        assert(obj_lookup(fields@.skip(i as int), key@) == Some(
                            fields@[i as int].1,
                        ));
                    }
                    return Some(&fields[i].1);
                }
                proof {
                    assert(fields@.skip(i as int)[0] == fields@[i as int]);
                    assert(fields@.skip(i as int).drop_first() =~= fields@.skip(i + 1));
                }
                i = i + 1;
            }
            proof {
                assert(fields@.skip(n as int) =~= Seq::<(String, Json)>::empty());
            }
            None
        },
        _ => None,
    }
}

/// Reads the string under `key`, with a default, proved against `jstr_or`.
pub fn json_get_str_or<'a>(j: &'a Json, key: &str, default: &'a str) -> (r: &'a str)
    ensures
        r@ == jstr_or(jget(*j, key@), default@),
{
    match json_get(j, key) {
        Some(x) => match x {
            Json::Str(s) => s.as_str(),
            _ => default,
        },
        None => default,
    }
}

/// Reads the integer under `key`, with a default, proved against `jint_or`.
pub fn json_get_i64_or(j: &Json, key: &str, default: i64) -> (r: i64)
    ensures
        r == jint_or(jget(*j, key@), default),
{
    match json_get(j, key) {
        Some(x) => match x {
            Json::Int(i) => *i,
            _ => default,
        },
        None => default,
    }
}

/// Reads the array under `key`, proved against `jarr_of`.
pub fn json_get_arr<'a>(j: &'a Json, key: &str) -> (r: Option<&'a Vec<Json>>)
    ensures
        match r {
            Some(a) => jarr_of(jget(*j, key@)) == Some(a@),
            None => jarr_of(jget(*j, key@)) is None,
        },
{
    match json_get(j, key) {
        Some(x) => match x {
            Json::Arr(a) => Some(a),
            _ => None,
        },
        None => None,
    }
}

} // verus!
