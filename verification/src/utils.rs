//! Saturation of a signal into an operating interval.

use vstd::prelude::*;
use crate::fixed::Fixed;

verus! {

/// What [`limit`] returns, over raw counts: `high` when the value lies above
/// `high`; otherwise `low` when it lies below `low`; otherwise the value
/// itself. The upper bound is tested first, which decides the result when
/// the bounds are inverted.
pub open spec fn limit_spec(mag: int, low: int, high: int) -> int {
    if mag > high {
        high
    } else if mag < low {
        low
    } else {
        mag
    }
}

/// Clamps `mag` into the closed interval from `low` to `high`.
pub fn limit(mag: Fixed, low: Fixed, high: Fixed) -> (r: Fixed)
    ensures
        r@ == limit_spec(mag@, low@, high@),
        low@ <= high@ ==> low@ <= r@ <= high@,
{
    if mag.raw > high.raw {
        high
    } else if mag.raw < low.raw {
        low
    } else {
        mag
    }
}

/// Clamping twice into the same well-ordered interval changes nothing
/// beyond what clamping once does.
pub proof fn lemma_limit_idempotent(mag: int, low: int, high: int)
    requires
        low <= high,
    ensures
        limit_spec(limit_spec(mag, low, high), low, high) == limit_spec(mag, low, high),
{
}

/// A value clamped into a well-ordered interval lies inside it.
pub proof fn lemma_limit_bounded(mag: int, low: int, high: int)
    requires
        low <= high,
    ensures
        low <= limit_spec(mag, low, high) <= high,
{
}

/// With inverted bounds, a value above `high` is clamped to `high`,
/// wherever it lies relative to `low`.
pub proof fn lemma_limit_inverted(mag: int, low: int, high: int)
    requires
        low > high,
        mag > high,
    ensures
        limit_spec(mag, low, high) == high,
{
}

/// A value already inside the interval passes through unchanged.
pub proof fn lemma_limit_inside(mag: int, low: int, high: int)
    requires
        low <= mag <= high,
    ensures
        limit_spec(mag, low, high) == mag,
{
}

} // verus!
