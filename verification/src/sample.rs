//! Uniform random draws.

use crate::fixed::Fixed;
use rand::Rng;
use vstd::prelude::*;

verus! {

/// Whether `v` lies in the half-open range from `low` up to `high`.
pub open spec fn within(v: Fixed, low: Fixed, high: Fixed) -> bool {
    low@ <= v@ < high@
}

/// `rand::Rng::gen_range` on the thread-local generator of
/// `rand::thread_rng`, for a half-open range of 64-bit integers.
///
/// Trusted: the call panics on an empty range, which the precondition rules
/// out, and otherwise returns some integer of the range. Which one is up to
/// the generator, so nothing more is claimed.
#[verifier::external_body]
fn uniform_raw(low: i64, high: i64) -> (r: i64)
    requires
        low < high,
    ensures
        low <= r < high,
{
    rand::thread_rng().gen_range(low..high)
}

/// A number drawn uniformly from `low` up to, not including, `high`.
pub fn uniform(low: Fixed, high: Fixed) -> (r: Fixed)
    requires
        low@ < high@,
    ensures
        within(r, low, high),
{
    Fixed { raw: uniform_raw(low.raw, high.raw) }
}

/// A number drawn uniformly from `low` up to, not including, `high`, or
/// nothing when that range is empty.
pub fn sample_range(low: Fixed, high: Fixed) -> (r: Option<Fixed>)
    ensures
        r is Some <==> low@ < high@,
        r is Some ==> within(r->0, low, high),
{
    if low.raw < high.raw {
        Some(uniform(low, high))
    } else {
        None
    }
}

} // verus!
