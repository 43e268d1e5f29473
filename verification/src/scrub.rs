//! Overwriting secret strings before their memory is given back.

use vstd::prelude::*;

verus! {

/// Calls `zeroize::Zeroize::zeroize` on a `String`, which overwrites its bytes
/// with zeros and then clears it: the string is empty afterwards.
#[verifier::external_body]
pub(crate) fn wipe_string(s: &mut String)
    ensures
        final(s)@ == Seq::<char>::empty(),
{
    zeroize::Zeroize::zeroize(s);
}

/// Calls `zeroize::Zeroize::zeroize` on an `Option<String>`, which wipes the
/// string if there is one and leaves `None`.
#[verifier::external_body]
pub(crate) fn wipe_optional_string(s: &mut Option<String>)
    ensures
        *final(s) is None,
{
    zeroize::Zeroize::zeroize(s);
}

} // verus!
