//! URI validation, delegated to the `url` crate.

use vstd::prelude::*;

verus! {

/// Whether `s` parses as an absolute URL. What `url::Url::parse` accepts
/// takes the WHATWG URL standard to state, so the predicate is left
/// unspecified; it depends on the string alone.
pub uninterp spec fn uri_parses(s: Seq<char>) -> bool;

/// Relies on `url::Url::parse`: it returns `Ok` exactly on the strings that
/// parse as absolute URLs, and its answer is a function of the string alone.
#[verifier::external_body]
pub(crate) fn uri_is_valid(s: &str) -> (r: bool)
    ensures
        r == uri_parses(s@),
{
    url::Url::parse(s).is_ok()
}

} // verus!
