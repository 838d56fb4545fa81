//! Joining texts.

use vstd::prelude::*;

verus! {

/// Calls `format!` to join two texts. Trusted: the result is `head`
/// followed by `tail`.
#[verifier::external_body]
pub(crate) fn joined(head: &str, tail: &str) -> (text: String)
    ensures
        text@ == head@ + tail@,
{
    format!("{}{}", head, tail)
}

} // verus!
