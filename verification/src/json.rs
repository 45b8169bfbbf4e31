//! The few questions the library asks of JSON documents, answered by
//! `serde_json`.

use vstd::prelude::*;

verus! {

/// The string that the JSON document `text` holds under `key`, as
/// `serde_json` reads it: `None` when `text` is not a JSON document, is not
/// an object, has no member `key`, or that member is not a string.
pub uninterp spec fn json_text_field(text: Seq<char>, key: Seq<char>) -> Option<Seq<char>>;

/// Whether `serde_json` accepts `text` as a JSON document.
pub uninterp spec fn json_parses(text: Seq<char>) -> bool;

/// Calls `serde_json::from_str::<serde_json::Value>` on `text` and, on
/// success, `Value::get(key)`, keeping the member when it is a
/// `Value::String`. The contract claims only that the answer is
/// `json_text_field(text, key)`, and that a found member means the text
/// parsed.
#[verifier::external_body]
pub(crate) fn json_string_field(text: &str, key: &str) -> (r: Option<String>)
    ensures
        match r {
            Some(v) => json_text_field(text@, key@) == Some(v@),
            None => json_text_field(text@, key@) is None,
        },
        r is Some ==> json_parses(text@),
{
    match serde_json::from_str::<serde_json::Value>(text) {
        Ok(v) => match v.get(key) {
            Some(serde_json::Value::String(s)) => Some(s.clone()),
            _ => None,
        },
        Err(_) => None,
    }
}

/// Calls `serde_json::from_str::<serde_json::Value>` on `text` and reports
/// whether it succeeded; the contract names the answer `json_parses(text)`.
#[verifier::external_body]
pub(crate) fn json_is_valid(text: &str) -> (r: bool)
    ensures
        r == json_parses(text@),
{
    serde_json::from_str::<serde_json::Value>(text).is_ok()
}

} // verus!
