//! The one place where the crate asks for a random number.

use vstd::prelude::*;

verus! {

/// Calls `rand::random_range` on the range `low..high`, which samples the
/// thread-local generator. Believed, not proved: the value returned lies in
/// that range. The call panics on an empty range, which `requires` leaves out.
#[verifier::external_body]
pub(crate) fn random_between(low: i64, high: i64) -> (v: i64)
    requires
        low < high,
    ensures
        low <= v < high,
{
    rand::random_range(low..high)
}

} // verus!
