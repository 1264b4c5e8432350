use vstd::prelude::*;

use crate::json::{deep_clone, get, json_get, Json, JsonValue};

verus! {

/// The string under `k`, when there is one and it is a string.
pub open spec fn str_at(v: Json, k: Seq<char>) -> Option<Seq<char>> {
    match json_get(v, k) {
        Some(Json::Str(s)) => Some(s),
        _ => None,
    }
}

/// The boolean under `k`, when there is one and it is a boolean.
pub open spec fn bool_at(v: Json, k: Seq<char>) -> Option<bool> {
    match json_get(v, k) {
        Some(Json::Bool(b)) => Some(b),
        _ => None,
    }
}

/// The string under the canonical key, else the one under the legacy key.
pub open spec fn resolve_str(
    v: Json,
    canonical: Seq<char>,
    legacy: Seq<char>,
) -> Option<Seq<char>> {
    match str_at(v, canonical) {
        Some(s) => Some(s),
        None => str_at(v, legacy),
    }
}

/// The boolean under the canonical key, else the one under the legacy key.
pub open spec fn resolve_bool(v: Json, canonical: Seq<char>, legacy: Seq<char>) -> Option<bool> {
    match bool_at(v, canonical) {
        Some(b) => Some(b),
        None => bool_at(v, legacy),
    }
}

/// The value under the canonical key when that key is present, else the one
/// under the legacy key, whatever its shape.
pub open spec fn resolve_key(v: Json, canonical: Seq<char>, legacy: Seq<char>) -> Option<Json> {
    match json_get(v, canonical) {
        Some(x) => Some(x),
        None => json_get(v, legacy),
    }
}

fn string_at<'a>(v: &'a JsonValue, key: &str) -> (r: Option<&'a String>)
    ensures
        r is Some <==> str_at(v@, key@) is Some,
        r is Some ==> str_at(v@, key@) == Some(r->0@),
{
    match get(v, key) {
        Some(JsonValue::Str(s)) => Some(s),
        _ => None,
    }
}

fn boolean_at(v: &JsonValue, key: &str) -> (r: Option<bool>)
    ensures
        r == bool_at(v@, key@),
{
    match get(v, key) {
        Some(JsonValue::Bool(b)) => Some(*b),
        _ => None,
    }
}

/// The string under `snake_key`, else under `camel_key`, else `default`;
/// a value of another shape counts as absent.
pub fn get_str_compat(value: &JsonValue, snake_key: &str, camel_key: &str, default: &str) -> (r:
    String)
    ensures
        r@ == match resolve_str(value@, snake_key@, camel_key@) {
            Some(s) => s,
            None => default@,
        },
{
    match get_opt_str_compat(value, snake_key, camel_key) {
        Some(s) => s,
        None => default.to_owned(),
    }
}

/// The string under `snake_key`, else under `camel_key`, else nothing.
pub fn get_opt_str_compat(value: &JsonValue, snake_key: &str, camel_key: &str) -> (r: Option<
    String,
>)
    ensures
        r is Some <==> resolve_str(value@, snake_key@, camel_key@) is Some,
        r is Some ==> resolve_str(value@, snake_key@, camel_key@) == Some(r->0@),
{
    match string_at(value, snake_key) {
        Some(s) => Some(s.clone()),
        None => match string_at(value, camel_key) {
            Some(s) => Some(s.clone()),
            None => None,
        },
    }
}

/// The boolean under `snake_key`, else under `camel_key`, else `default`.
pub fn get_bool_compat(value: &JsonValue, snake_key: &str, camel_key: &str, default: bool) -> (r:
    bool)
    ensures
        r == match resolve_bool(value@, snake_key@, camel_key@) {
            Some(b) => b,
            None => default,
        },
{
    match boolean_at(value, snake_key) {
        Some(b) => b,
        None => match boolean_at(value, camel_key) {
            Some(b) => b,
            None => default,
        },
    }
}

/// A copy of the value under `snake_key` when present, else of the one under
/// `camel_key`.
pub fn get_value_compat(value: &JsonValue, snake_key: &str, camel_key: &str) -> (r: Option<
    JsonValue,
>)
    ensures
        r is Some <==> resolve_key(value@, snake_key@, camel_key@) is Some,
        r is Some ==> resolve_key(value@, snake_key@, camel_key@) == Some(r->0@),
{
    match get(value, snake_key) {
        Some(x) => Some(deep_clone(x)),
        None => match get(value, camel_key) {
            Some(x) => Some(deep_clone(x)),
            None => None,
        },
    }
}

} // verus!
