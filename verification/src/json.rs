//! Structured-document validation of fetched bodies, delegated to
//! `serde_json`.

use vstd::prelude::*;

verus! {

/// Whether the bytes `b` parse as a structured (JSON) document. The JSON
/// grammar is the `serde_json` crate's to define, so the predicate is left
/// unspecified; it depends on the bytes alone.
pub uninterp spec fn json_parses(b: Seq<u8>) -> bool;

/// Relies on `serde_json::from_slice::<serde_json::Value>`: it returns `Ok`
/// exactly on the byte sequences that parse as JSON, and its answer is a
/// function of the bytes alone.
#[verifier::external_body]
pub(crate) fn body_is_json(b: &[u8]) -> (r: bool)
    ensures
        r == json_parses(b@),
{
    serde_json::from_slice::<serde_json::Value>(b).is_ok()
}

} // verus!
