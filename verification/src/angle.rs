//! Angles in ticks, and the normal form that a rebound leaves them in.

use vstd::prelude::*;

verus! {

/// Ticks in a quarter turn.
pub const QUARTER_TURN: i64 = 500_000;

/// Ticks in a half turn.
pub const HALF_TURN: i64 = 1_000_000;

/// Ticks in three quarters of a turn.
pub const THREE_QUARTER_TURN: i64 = 1_500_000;

/// Ticks in a full turn.
pub const FULL_TURN: i64 = 2_000_000;

/// The angle that adding full turns to a negative `raw`, or taking full turns
/// from a `raw` beyond one full turn, ends in. Both ends stay as they are:
/// zero is not turned into a full turn, nor a full turn into zero. So a
/// negative whole number of turns ends at zero, and two turns or more, where
/// they are whole, end at one full turn.
pub open spec fn wrapped(raw: int) -> int {
    let full = FULL_TURN as int;
    if raw < 0 {
        raw % full
    } else if raw > full {
        if raw % full == 0 {
            full
        } else {
            raw % full
        }
    } else {
        raw
    }
}

/// Brings `raw` into the closed range from zero to one full turn.
pub fn wrap_turn(raw: i128) -> (r: i64)
    ensures
        r == wrapped(raw as int),
        0 <= r <= FULL_TURN,
{
    let full: i128 = FULL_TURN as i128;
    if raw < 0 {
        let below: i128 = -(raw + 1);
        let rest: i128 = below % full;
        (full - 1 - rest) as i64
    } else if raw > full {
        let rest: i128 = raw % full;
        if rest == 0 {
            FULL_TURN
        } else {
            rest as i64
        }
    } else {
        raw as i64
    }
}

/// A wrapped angle lies between zero and one full turn, both included, and
/// differs from the raw angle by whole turns only.
pub proof fn lemma_wrapped_in_range(raw: int)
    ensures
        0 <= wrapped(raw) <= FULL_TURN,
        (wrapped(raw) - raw) % (FULL_TURN as int) == 0,
{
}

/// A raw angle outside the range and the one a full turn nearer to it wrap to
/// the same angle; one inside the range wraps to itself.
pub proof fn lemma_wrapped_by_steps(raw: int)
    ensures
        raw < 0 ==> wrapped(raw) == wrapped(raw + FULL_TURN),
        raw > FULL_TURN ==> wrapped(raw) == wrapped(raw - FULL_TURN),
        0 <= raw <= FULL_TURN ==> wrapped(raw) == raw,
{
}

} // verus!
