//! JSON encoding of the lists that are handed to the entrypoint. The encoding
//! itself is `serde_json`'s; this module gives it a name for the contracts.

use vstd::prelude::*;

verus! {

/// `serde_json::Error`, declared so that an error can be taken from the call
/// and dropped. Nothing inside it is read.
#[verifier::external_type_specification]
#[verifier::external_body]
pub struct ExJsonError(serde_json::Error);

/// The JSON text that `serde_json::to_string` gives for a list of strings, or
/// `None` where it reports an error.
pub uninterp spec fn json_array(items: Seq<Seq<char>>) -> Option<Seq<char>>;

/// Calls `serde_json::to_string` on the list.
///
/// Taken on trust, and all that the contract claims: the outcome depends on
/// the characters of the strings alone. The same list gives the same text,
/// or fails again. Nothing is said of what the text looks like, nor that the
/// call succeeds.
#[verifier::external_body]
pub(crate) fn to_json(items: &Vec<String>) -> (r: Result<String, serde_json::Error>)
    ensures
        match r {
            Ok(text) => json_array(items.deep_view()) == Some(text@),
            Err(_) => json_array(items.deep_view()) is None,
        },
{
    serde_json::to_string(items)
}

} // verus!
