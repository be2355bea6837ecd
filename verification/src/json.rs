use vstd::prelude::*;

verus! {

/// Whether `serde_json::from_str` parses a string as a JSON document:
/// that depends on the string alone.
pub uninterp spec fn json_ok(s: Seq<char>) -> bool;

/// Relies on serde_json::from_str::<Value>: parsing is a function of
/// the input string alone, succeeding exactly on well-formed JSON.
#[verifier::external_body]
pub(crate) fn json_valid(s: &str) -> (r: bool)
    ensures
        r == json_ok(s@),
{
    serde_json::from_str::<serde_json::Value>(s).is_ok()
}

} // verus!
