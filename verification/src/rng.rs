//! The one source of randomness: jittered spawn waits, coin flips and
//! index picks all draw through it.

use vstd::prelude::*;

use rand::Rng;

verus! {

/// Relies on rand's `Rng::gen_range` on the thread-local generator, over
/// the inclusive range `lo..=hi`: the sample lies in that range, which must
/// not be empty.
#[verifier::external_body]
pub(crate) fn random_in_range(lo: u64, hi: u64) -> (r: u64)
    requires
        lo <= hi,
    ensures
        lo <= r <= hi,
{
    rand::thread_rng().gen_range(lo..=hi)
}

} // verus!
