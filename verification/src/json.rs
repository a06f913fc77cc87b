//! JSON text of discovery info, written by `serde_json`.
use vstd::prelude::*;
use crate::discovery::{distinct_keys, members_map, pairs_view};

verus! {

#[verifier::external_type_specification]
#[verifier::external_body]
pub struct ExJsonError(serde_json::Error);

/// The JSON text `serde_json` writes for an object whose members are the
/// given string pairs.
pub uninterp spec fn json_object_text(pairs: Seq<(Seq<char>, Seq<char>)>) -> Seq<char>;

/// Writes the pairs, no key twice, as one JSON object of string members.
///
/// Trusted: calls `serde_json::to_string` on a `serde_json::Map` whose
/// members are the pairs, each value a `serde_json::Value::String`. The
/// contract claims that the call succeeds (its documentation names only
/// serializers that fail and maps with keys other than strings as causes of
/// failure), that the text depends on the pairs alone, that it holds no NUL
/// character (string contents are written with control characters
/// escaped), and that reading the text back as an object of string members
/// gives the same members.
#[verifier::external_body]
pub(crate) fn object_to_json(pairs: &Vec<(String, String)>) -> (json: Result<String, serde_json::Error>)
    requires
        distinct_keys(pairs_view(pairs@)),
    ensures
        json is Ok,
        json matches Ok(text) ==> text@ == json_object_text(pairs_view(pairs@)),
        json matches Ok(text) ==> forall|i: int| 0 <= i < text@.len() ==> text@[i] != '\0',
        json matches Ok(text) ==> (json_string_members(text@) matches Some(members)
            && members_map(members) == members_map(pairs_view(pairs@))),
{
    let object: serde_json::Map<String, serde_json::Value> = pairs
        .iter()
        .map(|(key, value)| (key.clone(), serde_json::Value::String(value.clone())))
        .collect();
    serde_json::to_string(&object)
}

/// The message of a `serde_json` error.
///
/// Trusted: calls `serde_json::Error`'s `Display` (through `to_string`);
/// nothing is claimed of the text.
#[verifier::external_body]
pub(crate) fn json_error_message(error: &serde_json::Error) -> String {
    error.to_string()
}

/// The string members of the JSON object `serde_json` reads from a text,
/// or `None` when the text is not a JSON object whose values are all
/// strings.
pub uninterp spec fn json_string_members(text: Seq<char>) -> Option<Seq<(Seq<char>, Seq<char>)>>;

/// Reads a JSON object of string members.
///
/// Trusted: calls `serde_json::from_str` into a `BTreeMap<String, String>`
/// and lists its entries. The contract claims that the outcome depends on
/// the text alone, and that no key is listed twice, as a map holds each key
/// once.
#[verifier::external_body]
pub(crate) fn parse_string_members(json: &str) -> (members: Option<Vec<(String, String)>>)
    ensures
        match members {
            Some(m) => json_string_members(json@) == Some(pairs_view(m@)) && distinct_keys(
                pairs_view(m@),
            ),
            None => json_string_members(json@) is None,
        },
{
    serde_json::from_str::<std::collections::BTreeMap<String, String>>(json)
        .ok()
        .map(|members| members.into_iter().collect())
}

} // verus!
