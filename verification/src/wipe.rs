//! Overwriting key bytes before their storage is released.

use vstd::prelude::*;
use zeroize::Zeroize;

verus! {

/// Overwrites every byte of the buffer with zero, in place.
///
/// Trusted: calls `zeroize::Zeroize::zeroize` on the buffer's slice, which
/// stores the default value (zero) in each element with volatile writes and
/// leaves the length as it is.
#[verifier::external_body]
pub(crate) fn wipe(bytes: &mut Vec<u8>)
    ensures
        final(bytes)@.len() == old(bytes)@.len(),
        forall|i: int| 0 <= i < final(bytes)@.len() ==> final(bytes)@[i] == 0u8,
    opens_invariants none
    no_unwind
{
    bytes.as_mut_slice().zeroize();
}

/// Overwrites a text with zeros before it is released.
///
/// Trusted: calls `zeroize::Zeroize::zeroize` on the `String`, which
/// overwrites its bytes and its spare capacity with zeros. Nothing is
/// claimed of the text afterwards.
#[verifier::external_body]
pub(crate) fn wipe_text(text: &mut String) {
    text.zeroize();
}

} // verus!
