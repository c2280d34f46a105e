//! The JSON reader that the control plane's text messages go through.
//!
//! Reading JSON is left to `serde_json`. Nothing about that crate is proved
//! here: the two functions of this file state what its source says of the
//! calls they make, and the rest of the library is proved from those
//! statements.

use vstd::prelude::*;

verus! {

/// `serde_json::Value`, a JSON value as the reader builds it. It is carried
/// from `parse_json` to `json_member` and never looked into.
#[verifier::external_type_specification]
#[verifier::external_body]
pub struct ExJsonValue(serde_json::Value);

/// `serde_json::Error`, the reader's complaint about a text. Only its
/// presence is used.
#[verifier::external_type_specification]
#[verifier::external_body]
pub struct ExJsonError(serde_json::Error);

/// The members that a JSON value holds: for an object, each key whose value
/// is not `null`, with that value as text (the content of a string, the
/// compact JSON text of anything else). A value that is no object holds none.
pub uninterp spec fn json_members(value: serde_json::Value) -> Map<Seq<char>, Seq<char>>;

/// What `serde_json::from_str` makes of a text: `None` where it rejects the
/// text, else the members of the value that it reads.
pub uninterp spec fn json_document(text: Seq<char>) -> Option<Map<Seq<char>, Seq<char>>>;

/// Calls `serde_json::from_str` for a `serde_json::Value`. The result is a
/// function of the text alone: an error exactly where the reader rejects the
/// text, and otherwise the value whose members `json_document` names.
#[verifier::external_body]
pub(crate) fn parse_json(text: &str) -> (r: Result<serde_json::Value, serde_json::Error>)
    ensures
        match r {
            Ok(value) => json_document(text@) == Some(json_members(value)),
            Err(_) => json_document(text@) is None,
        },
{
    serde_json::from_str::<serde_json::Value>(text)
}

/// Indexes a `serde_json::Value` by a key, which yields `Value::Null` where
/// the value is no object or lacks the key. Returns `None` for `null`, the
/// content of a string, and for any other value its `to_string()`, which is
/// its compact JSON text.
#[verifier::external_body]
pub(crate) fn json_member(value: &serde_json::Value, key: &str) -> (r: Option<String>)
    ensures
        match r {
            Some(text) => json_members(*value).contains_key(key@) && json_members(*value)[key@]
                == text@,
            None => !json_members(*value).contains_key(key@),
        },
{
    match &value[key] {
        serde_json::Value::Null => None,
        serde_json::Value::String(content) => Some(content.clone()),
        other => Some(other.to_string()),
    }
}

} // verus!
