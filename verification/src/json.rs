//! Reading a field out of a JSON text.

use vstd::prelude::*;

verus! {

/// What a JSON text holds under `key`: `None` where the text is not valid
/// JSON; `Some(None)` where it is, but is no object, has no such key, or
/// holds something other than a string there; else the string.
pub uninterp spec fn json_text_field(text: Seq<char>, key: Seq<char>) -> Option<Option<Seq<char>>>;

/// Parses `text` as JSON and reads the string under `key`.
///
/// Trusted: calls `serde_json::from_str` for a `serde_json::Value`, which
/// fails on anything but one well-formed JSON value; then indexes the value
/// by `key`, which gives null unless the value is an object with that key,
/// and `serde_json::Value::as_str`, which gives the text only of a string.
/// The outcome depends on the two arguments alone.
#[verifier::external_body]
pub(crate) fn read_text_field(text: &str, key: &str) -> (r: Option<Option<String>>)
    ensures
        r.deep_view() == json_text_field(text@, key@),
{
    match serde_json::from_str::<serde_json::Value>(text) {
        Ok(value) => match value[key].as_str() {
            Some(found) => Some(Some(found.to_string())),
            None => Some(None),
        },
        Err(_) => None,
    }
}

} // verus!
