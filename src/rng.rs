//! Draws from the thread-local random number generator of `rand`.

use vstd::prelude::*;
use rand::Rng;

verus! {

/// Relies on `rand::Rng::gen_range` on `rand::thread_rng()`: for a
/// non-empty half-open range it returns a value inside it. `gen_range`
/// panics only on an empty range, which `requires` excludes. The generator
/// itself panics only when the operating system's entropy source fails,
/// either on first use or when it reseeds.
#[verifier::external_body]
pub(crate) fn random_in(lo: i64, hi: i64) -> (r: i64)
    requires
        lo < hi,
    ensures
        lo <= r < hi,
{
    rand::thread_rng().gen_range(lo..hi)
}

} // verus!
