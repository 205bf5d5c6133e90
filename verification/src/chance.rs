//! The one place where chance enters.

use rand::Rng;
use vstd::prelude::*;

verus! {

/// Draws a whole number from `low` up to, but not including, `high`.
///
/// Calls `rand::Rng::gen_range` on the generator that `rand::thread_rng`
/// hands out. Nothing is proved of it; its contract repeats what `rand`
/// documents: the result is at least `low` and below `high`, and the call
/// panics unless `low < high`, which the precondition rules out. Which
/// number comes is left open, so two calls may differ. The generator itself
/// panics where the system gives it no seed; no precondition can rule that
/// out.
#[verifier::external_body]
pub(crate) fn draw_between(low: i64, high: i64) -> (drawn: i64)
    requires
        low < high,
    ensures
        low <= drawn < high,
{
    rand::thread_rng().gen_range(low, high)
}

} // verus!
