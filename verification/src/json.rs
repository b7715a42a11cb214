//! Recognising JSON text.

use vstd::prelude::*;

verus! {

/// Whether `text` is one JSON value, with nothing but whitespace around it,
/// as `serde_json::from_str` judges it.
pub uninterp spec fn well_formed_json(text: Seq<char>) -> bool;

/// Calls `serde_json::from_str`, parsing `text` and discarding the value.
/// Trusted: the call succeeds exactly on the texts that the parser accepts,
/// which depends on the text alone.
#[verifier::external_body]
pub(crate) fn is_json(text: &str) -> (valid: bool)
    ensures
        valid == well_formed_json(text@),
{
    match serde_json::from_str::<serde::de::IgnoredAny>(text) {
        Ok(_) => true,
        Err(_) => false,
    }
}

} // verus!
