//! The opacity barrier: an identity function the optimizer cannot see
//! through, used so that measured calls and their arguments are never elided
//! or hoisted.

use vstd::prelude::*;

verus! {

/// Relies on std::hint::black_box: it returns its argument unchanged and is
/// documented as an identity function that the optimizer treats as opaque.
#[verifier::external_body]
pub(crate) fn opaque_u64(x: u64) -> (r: u64)
    ensures
        r == x,
{
    std::hint::black_box(x)
}

} // verus!
