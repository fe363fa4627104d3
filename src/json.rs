//! Reading members of JSON bodies and writing JSON strings. serde_json does
//! the parsing and the quoting; what it returns is named by the spec
//! functions below and taken as given.
use vstd::prelude::*;

verus! {

#[verifier::external_type_specification]
#[verifier::external_body]
pub struct ExValue(serde_json::Value);

/// The string that serde_json reads as member `key` of the object `text` holds.
pub uninterp spec fn json_string_member(text: Seq<char>, key: Seq<char>) -> Option<Seq<char>>;

/// The non-negative integer that serde_json reads as member `key` of the
/// object `text` holds.
pub uninterp spec fn json_u64_member(text: Seq<char>, key: Seq<char>) -> Option<u64>;

/// The boolean that serde_json reads as member `key` of the object `text` holds.
pub uninterp spec fn json_bool_member(text: Seq<char>, key: Seq<char>) -> Option<bool>;

/// The length of the array that serde_json reads as member `key` of the
/// object `text` holds.
pub uninterp spec fn json_array_member_len(text: Seq<char>, key: Seq<char>) -> Option<nat>;

/// The length of the array that serde_json reads as the whole of `text`.
pub uninterp spec fn json_array_len(text: Seq<char>) -> Option<nat>;

/// The JSON string literal that serde_json writes for `s`.
pub uninterp spec fn json_quoted(s: Seq<char>) -> Seq<char>;

/// Relies on serde_json::from_str into a `Value`, then `Value::get` and
/// `Value::as_str`: the string member `key` of the top-level object.
#[verifier::external_body]
pub(crate) fn string_member(text: &str, key: &str) -> (r: Option<String>)
    ensures
        match r {
            Some(s) => json_string_member(text@, key@) == Some(s@),
            None => json_string_member(text@, key@) is None,
        },
{
    match serde_json::from_str::<serde_json::Value>(text) {
        Ok(value) => value.get(key).and_then(serde_json::Value::as_str).map(str::to_string),
        Err(_) => None,
    }
}

/// Relies on serde_json::from_str into a `Value`, then `Value::get` and
/// `Value::as_u64`: the non-negative integer member `key` of the top-level object.
#[verifier::external_body]
pub(crate) fn u64_member(text: &str, key: &str) -> (r: Option<u64>)
    ensures
        r == json_u64_member(text@, key@),
{
    match serde_json::from_str::<serde_json::Value>(text) {
        Ok(value) => value.get(key).and_then(serde_json::Value::as_u64),
        Err(_) => None,
    }
}

/// Relies on serde_json::from_str into a `Value`, then `Value::get` and
/// `Value::as_bool`: the boolean member `key` of the top-level object.
#[verifier::external_body]
pub(crate) fn bool_member(text: &str, key: &str) -> (r: Option<bool>)
    ensures
        r == json_bool_member(text@, key@),
{
    match serde_json::from_str::<serde_json::Value>(text) {
        Ok(value) => value.get(key).and_then(serde_json::Value::as_bool),
        Err(_) => None,
    }
}

/// Relies on serde_json::from_str into a `Value`, then `Value::get` and
/// `Value::as_array`: the elements of the array member `key` of the
/// top-level object.
#[verifier::external_body]
pub(crate) fn array_member(text: &str, key: &str) -> (r: Option<Vec<serde_json::Value>>)
    ensures
        match r {
            Some(v) => json_array_member_len(text@, key@) == Some(v@.len()),
            None => json_array_member_len(text@, key@) is None,
        },
{
    match serde_json::from_str::<serde_json::Value>(text) {
        Ok(value) => value.get(key).and_then(serde_json::Value::as_array).cloned(),
        Err(_) => None,
    }
}

/// Relies on serde_json::from_str into a `Value`, then `Value::as_array`:
/// the elements of the array that `text` holds.
#[verifier::external_body]
pub(crate) fn array_elements(text: &str) -> (r: Option<Vec<serde_json::Value>>)
    ensures
        match r {
            Some(v) => json_array_len(text@) == Some(v@.len()),
            None => json_array_len(text@) is None,
        },
{
    match serde_json::from_str::<serde_json::Value>(text) {
        Ok(value) => value.as_array().cloned(),
        Err(_) => None,
    }
}

/// Relies on serde_json::to_string of a `str`, which cannot fail: the
/// quoted and escaped JSON string for `s`.
#[verifier::external_body]
pub(crate) fn quoted(s: &str) -> (r: String)
    ensures
        r@ == json_quoted(s@),
{
    serde_json::to_string(s).unwrap_or_default()
}

} // verus!
