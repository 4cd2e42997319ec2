//! The randomness source for spawn positions and directions.

use vstd::prelude::*;

verus! {

/// Relies on rand::random: one draw of a uniformly distributed `u32` from
/// the thread-local generator. Nothing can be promised of the value itself;
/// callers state what holds of every outcome.
#[verifier::external_body]
fn random_u32() -> u32 {
    rand::random::<u32>()
}

/// A random draw mapped into `[lo, hi]` by reduction modulo the range size.
/// Whatever the draw, the result lies in the requested interval.
pub fn random_in_range(lo: i64, hi: i64) -> (r: i64)
    requires
        lo <= hi,
        hi - lo < 4_294_967_295,
    ensures
        lo <= r <= hi,
{
    let raw: u32 = random_u32();
    let range: u64 = (hi - lo) as u64 + 1;
    let off: u64 = (raw as u64) % range;
    lo + (off as i64)
}

} // verus!
