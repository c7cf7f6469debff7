//! Units of the integer quantities that the library works on.

use vstd::prelude::*;

verus! {

/// The fixed-point scale: a progress, driver or colour channel of `ONE` stands
/// for 1, an angle of `ONE` for one degree.
pub const ONE: u64 = 1_000_000_000;

/// How long past its duration a transition keeps running before it is
/// finalized, in nanoseconds (a hundredth of a second).
pub const COMPLETION_EPSILON: u64 = 10_000_000;

/// The progress that a frame of `delta` nanoseconds adds to `progress` in a
/// transition of `duration` nanoseconds: `delta / duration` in fixed point,
/// rounded down, the sum held at the top of the range.
pub open spec fn progress_after(progress: u64, delta: u64, duration: u64) -> u64
    recommends
        duration > 0,
{
    let sum = progress + (delta * ONE) / (duration as int);
    if sum > u64::MAX {
        u64::MAX
    } else {
        sum as u64
    }
}

/// Whether a transition that started at `started` and lasts `duration` is over
/// at `now`: the time elapsed exceeds the duration by more than the epsilon.
pub open spec fn is_over(started: u64, duration: u64, now: u64) -> bool {
    now - started > duration + COMPLETION_EPSILON
}

/// A frame never takes progress back, and a frame of no length adds none.
pub proof fn progress_only_grows(progress: u64, delta: u64, duration: u64)
    requires
        duration > 0,
    ensures
        progress_after(progress, delta, duration) >= progress,
        progress_after(progress, 0, duration) == progress,
{
    assert((delta * ONE) / (duration as int) >= 0) by (nonlinear_arith)
        requires
            delta >= 0,
            ONE > 0,
            duration > 0,
    ;
    assert((0 * ONE) / (duration as int) == 0) by (nonlinear_arith)
        requires
            duration > 0,
    ;
}

pub(crate) fn accumulate(progress: u64, delta: u64, duration: u64) -> (p: u64)
    requires
        duration > 0,
    ensures
        p == progress_after(progress, delta, duration),
{
    assert(delta * ONE <= u64::MAX * 1_000_000_000) by (nonlinear_arith)
        requires
            delta <= u64::MAX,
            ONE == 1_000_000_000,
    ;
    let scaled: u128 = delta as u128 * ONE as u128;
    let step: u128 = scaled / (duration as u128);
    assert(step <= scaled) by (nonlinear_arith)
        requires
            step == scaled / (duration as u128),
            duration > 0,
    ;
    let sum: u128 = progress as u128 + step;
    if sum > u64::MAX as u128 {
        u64::MAX
    } else {
        sum as u64
    }
}

pub(crate) fn over(started: u64, duration: u64, now: u64) -> (b: bool)
    ensures
        b == is_over(started, duration, now),
{
    if now <= started {
        false
    } else {
        let elapsed: u64 = now - started;
        elapsed > COMPLETION_EPSILON && elapsed - COMPLETION_EPSILON > duration
    }
}

} // verus!
