//! JSON, read and written by `serde_json`. Nothing here is proved: each item
//! states what the library takes on trust from that crate.

use vstd::prelude::*;

verus! {

/// `serde_json::Value`, a parsed JSON value. Nothing is known of what it
/// holds but what `string_members` names.
#[verifier::external_type_specification]
#[verifier::external_body]
pub struct ExValue(serde_json::Value);

/// `serde_json::Error`, why a text could not be read or written as JSON.
#[verifier::external_type_specification]
#[verifier::external_body]
pub struct ExError(serde_json::Error);

/// The members of a JSON value whose values are strings, by key. It is
/// empty where the value is not an object.
pub uninterp spec fn string_members(value: serde_json::Value) -> Map<Seq<char>, Seq<char>>;

/// The string members of the JSON value that `text` parses to, if it parses.
pub uninterp spec fn parsed_members(text: Seq<char>) -> Option<Map<Seq<char>, Seq<char>>>;

/// The JSON string literal for `s`, quotes and escapes included, as
/// `serde_json` writes it.
pub uninterp spec fn quoted(s: Seq<char>) -> Seq<char>;

/// `serde_json::from_str` at the type `Value`: parses `text` as one JSON
/// value. Taken on trust: whether it succeeds, and the string members of
/// what it yields, depend on `text` alone.
#[verifier::external_body]
pub(crate) fn parse(text: &str) -> (r: Result<serde_json::Value, serde_json::Error>)
    ensures
        match r {
            Ok(value) => parsed_members(text@) == Some(string_members(value)),
            Err(_) => parsed_members(text@) is None,
        },
{
    serde_json::from_str::<serde_json::Value>(text)
}

/// `Value::get` with a string key: the member `key` of `value`, where
/// `value` is an object that has it and it is a string.
#[verifier::external_body]
pub(crate) fn string_member(value: &serde_json::Value, key: &str) -> (r: Option<String>)
    ensures
        match r {
            Some(s) => string_members(*value).contains_key(key@) && string_members(*value)[key@]
                == s@,
            None => !string_members(*value).contains_key(key@),
        },
{
    match value.get(key) {
        Some(serde_json::Value::String(s)) => Some(s.clone()),
        _ => None,
    }
}

/// `serde_json::to_string` at the type `str`: the JSON string literal for
/// `s`. Taken on trust: the result depends on `s` alone, and there always
/// is one, since a string is written to a byte vector in memory, where
/// neither the value nor the writer can refuse.
#[verifier::external_body]
pub(crate) fn quote(s: &str) -> (r: Result<String, serde_json::Error>)
    ensures
        r is Ok,
        r matches Ok(q) ==> q@ == quoted(s@),
{
    serde_json::to_string(s)
}

} // verus!
