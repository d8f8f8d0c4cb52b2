//! String comparison for token parsing, done through an outside crate.

use vstd::prelude::*;

verus! {

/// Relies on konst::eq_str: a length check followed by a byte-for-byte
/// comparison, so it returns true exactly when the two strings are equal.
#[verifier::external_body]
pub(crate) fn eq_str(a: &str, b: &str) -> (r: bool)
    ensures
        r == (a@ == b@),
{
    konst::eq_str(a, b)
}

} // verus!
