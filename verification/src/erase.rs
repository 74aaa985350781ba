//! Secure disposal of secrets.

use vstd::prelude::*;
use zeroize::Zeroize;

verus! {

/// Overwrites a secret with zero bytes and leaves it empty.
///
/// Trusted: the body calls `zeroize::Zeroize::zeroize` on the `String`. That
/// implementation zeroes the whole capacity of the backing buffer and then
/// truncates the string to length zero. The model of a `String` has no
/// backing buffer, so the contract claims the truncation only.
#[verifier::external_body]
pub(crate) fn erase(secret: &mut String)
    ensures
        final(secret)@ == Seq::<char>::empty(),
{
    secret.zeroize();
}

} // verus!
