//! The JSON encoder and parser that the store relies on.
//!
//! Nothing in this file is proved. Each item states what is taken on trust
//! about `serde_json`, and the rest of the library is verified against that.

use vstd::prelude::*;
use std::collections::BTreeMap;

verus! {

/// `serde_json::Error`, carried through as an opaque value.
#[verifier::external_type_specification]
#[verifier::external_body]
pub struct ExJsonError(serde_json::Error);

/// The JSON text that `serde_json::to_string` writes for a string: its
/// literal, quotes and escapes included. `None` where the encoder fails.
pub uninterp spec fn json_string_literal(s: Seq<char>) -> Option<Seq<char>>;

/// The members that `serde_json::from_str` reads from a text as a
/// `BTreeMap<String, String>`, each a name and its value, in the order of
/// the map. `None` where the text is no JSON object of strings.
pub uninterp spec fn json_string_members(text: Seq<char>) -> Option<Seq<(Seq<char>, Seq<char>)>>;

/// The members of `v` by their views.
pub open spec fn members_view(v: Seq<(String, String)>) -> Seq<(Seq<char>, Seq<char>)> {
    Seq::new(v.len(), |i: int| (v[i].0@, v[i].1@))
}

/// Calls `serde_json::to_string` on a string. Trusted: the call's outcome
/// depends on the string alone, and `json_string_literal` is its name.
#[verifier::external_body]
pub(crate) fn string_to_json(s: &str) -> (r: Result<String, serde_json::Error>)
    ensures
        match r {
            Ok(t) => json_string_literal(s@) == Some(t@),
            Err(_) => json_string_literal(s@) is None,
        },
{
    serde_json::to_string(s)
}

/// Calls `serde_json::from_str` for a `BTreeMap<String, String>` and hands
/// its entries out in the map's order. Trusted: the call's outcome depends
/// on the text alone, and `json_string_members` is its name.
#[verifier::external_body]
pub(crate) fn string_members_from_json(text: &str) -> (r: Result<
    Vec<(String, String)>,
    serde_json::Error,
>)
    ensures
        match r {
            Ok(v) => json_string_members(text@) == Some(members_view(v@)),
            Err(_) => json_string_members(text@) is None,
        },
{
    match serde_json::from_str::<BTreeMap<String, String>>(text) {
        Ok(map) => Ok(map.into_iter().collect()),
        Err(e) => Err(e),
    }
}

/// Calls `to_string` on a `serde_json::Error`, which formats it for a human
/// reader. Nothing is claimed of the message.
#[verifier::external_body]
pub(crate) fn json_error_message(e: &serde_json::Error) -> (m: String) {
    e.to_string()
}

} // verus!
