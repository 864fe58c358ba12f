//! Reading fields out of a tool call's JSON argument text.

use vstd::prelude::*;

verus! {

/// The message `serde_json` reports when `raw` is not one JSON value, or
/// `None` when it is.
pub uninterp spec fn json_parse_error(raw: Seq<char>) -> Option<Seq<char>>;

/// The string stored under `key` when `raw` parses as a JSON object with a
/// string there; `None` otherwise.
pub uninterp spec fn json_str_field(raw: Seq<char>, key: Seq<char>) -> Option<Seq<char>>;

/// The boolean stored under `key` when `raw` parses as a JSON object with a
/// boolean there; `None` otherwise.
pub uninterp spec fn json_bool_field(raw: Seq<char>, key: Seq<char>) -> Option<bool>;

/// The non-negative integer stored under `key` when `raw` parses as a JSON
/// object with one that fits in a `u64` there; `None` otherwise.
pub uninterp spec fn json_u64_field(raw: Seq<char>, key: Seq<char>) -> Option<u64>;

/// The characters of an optional string.
pub open spec fn opt_chars(o: Option<String>) -> Option<Seq<char>> {
    match o {
        Some(s) => Some(s@),
        None => None,
    }
}

/// Parses `raw` with `serde_json::from_str::<serde_json::Value>` and
/// returns the error's `Display` text when that fails. The contract names
/// the outcome, which depends on `raw` alone, and states one case: the
/// empty object `{}` parses.
#[verifier::external_body]
pub(crate) fn parse_error(raw: &str) -> (r: Option<String>)
    ensures
        opt_chars(r) == json_parse_error(raw@),
        raw@ == "{}"@ ==> r is None,
{
    match serde_json::from_str::<serde_json::Value>(raw) {
        Ok(_) => None,
        Err(e) => Some(e.to_string()),
    }
}

/// `serde_json::from_str::<Value>(raw)`, then `Value::get(key)` and
/// `Value::as_str`: the string field `key` of the JSON object `raw`. The
/// contract names the outcome and claims only that it depends on `raw`
/// and `key` alone.
#[verifier::external_body]
pub(crate) fn str_field(raw: &str, key: &str) -> (r: Option<String>)
    ensures
        opt_chars(r) == json_str_field(raw@, key@),
{
    match serde_json::from_str::<serde_json::Value>(raw) {
        Ok(v) => match v.get(key) {
            Some(f) => match f.as_str() {
                Some(text) => Some(text.to_owned()),
                None => None,
            },
            None => None,
        },
        Err(_) => None,
    }
}

/// `serde_json::from_str::<Value>(raw)`, then `Value::get(key)` and
/// `Value::as_bool`. The contract names the outcome and claims only that it
/// depends on `raw` and `key` alone.
#[verifier::external_body]
pub(crate) fn bool_field(raw: &str, key: &str) -> (r: Option<bool>)
    ensures
        r == json_bool_field(raw@, key@),
{
    match serde_json::from_str::<serde_json::Value>(raw) {
        Ok(v) => match v.get(key) {
            Some(f) => f.as_bool(),
            None => None,
        },
        Err(_) => None,
    }
}

/// `serde_json::from_str::<Value>(raw)`, then `Value::get(key)` and
/// `Value::as_u64`. The contract names the outcome and claims only that it
/// depends on `raw` and `key` alone.
#[verifier::external_body]
pub(crate) fn u64_field(raw: &str, key: &str) -> (r: Option<u64>)
    ensures
        r == json_u64_field(raw@, key@),
{
    match serde_json::from_str::<serde_json::Value>(raw) {
        Ok(v) => match v.get(key) {
            Some(f) => f.as_u64(),
            None => None,
        },
        Err(_) => None,
    }
}

} // verus!
