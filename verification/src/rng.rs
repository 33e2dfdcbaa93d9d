use vstd::prelude::*;

verus! {

/// Relies on `rand::random_range` over the half-open range `0..n`: the draw
/// is uniform over that range, so the result is always below `n`. The call
/// panics only on an empty range, which `n > 0` rules out.
#[verifier::external_body]
pub(crate) fn random_below(n: u32) -> (r: u32)
    requires
        n > 0,
    ensures
        r < n,
{
    rand::random_range(0..n)
}

} // verus!
