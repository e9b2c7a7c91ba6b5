//! JSON text for the structured fields of a record. The text is written and
//! read by `serde_json`; nothing about its inner form is assumed here beyond
//! what the items below say.

use std::collections::HashMap;
use vstd::prelude::*;

verus! {

/// The map of strings that `serde_json::from_str` reads from `text` as a
/// `HashMap<String, String>`; `None` where it reports an error.
pub uninterp spec fn json_map_of(text: Seq<char>) -> Option<Map<Seq<char>, Seq<char>>>;

/// The list of strings that `serde_json::from_str` reads from `text` as a
/// `Vec<String>`; `None` where it reports an error.
pub uninterp spec fn json_list_of(text: Seq<char>) -> Option<Seq<Seq<char>>>;

/// What an optional map of strings stands for.
pub open spec fn opt_map(m: Option<HashMap<String, String>>) -> Option<Map<Seq<char>, Seq<char>>> {
    match m {
        Some(t) => Some(t.deep_view()),
        None => None,
    }
}

/// What an optional list of strings stands for.
pub open spec fn opt_list(l: Option<Vec<String>>) -> Option<Seq<Seq<char>>> {
    match l {
        Some(t) => Some(t.deep_view()),
        None => None,
    }
}

/// Calls `serde_json::from_str` for a `HashMap<String, String>`. Trusted: the
/// result is the map that `json_map_of` names for this text, and `None`
/// exactly where the call fails. That the call gives the same map for the
/// same text is what justifies the name.
#[verifier::external_body]
pub(crate) fn map_from_json(text: &str) -> (parsed: Option<HashMap<String, String>>)
    ensures
        opt_map(parsed) == json_map_of(text@),
{
    serde_json::from_str::<HashMap<String, String>>(text).ok()
}

/// Calls `serde_json::to_string` on a map of strings. Trusted: the call
/// succeeds, since it fails only for a value that refuses to be written or
/// for a map with keys that are no strings, and this map is neither; its
/// text is not empty (an object is at least `{}`) and reads back, by
/// `serde_json::from_str`, as the same map. The text itself is not named:
/// the order of its members follows the order of the hash map.
#[verifier::external_body]
pub(crate) fn map_to_json(map: &HashMap<String, String>) -> (text: Option<String>)
    ensures
        text is Some,
        text matches Some(t) ==> t@.len() > 0 && json_map_of(t@) == Some(map.deep_view()),
{
    serde_json::to_string(map).ok()
}

/// Calls `serde_json::from_str` for a `Vec<String>`. Trusted: the result is
/// the list that `json_list_of` names for this text, and `None` exactly
/// where the call fails.
#[verifier::external_body]
pub(crate) fn list_from_json(text: &str) -> (parsed: Option<Vec<String>>)
    ensures
        opt_list(parsed) == json_list_of(text@),
{
    serde_json::from_str::<Vec<String>>(text).ok()
}

/// Calls `serde_json::to_string` on a list of strings. Trusted: the call
/// succeeds, since it fails only for a value that refuses to be written or
/// for a map with keys that are no strings, and a list of strings holds
/// neither; its text reads back, by `serde_json::from_str`, as the same
/// list.
#[verifier::external_body]
pub(crate) fn list_to_json(list: &Vec<String>) -> (text: Option<String>)
    ensures
        text is Some,
        text matches Some(t) ==> json_list_of(t@) == Some(list.deep_view()),
{
    serde_json::to_string(list).ok()
}

} // verus!
