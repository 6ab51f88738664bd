//! Retry delays while no player is found, and validation of the timing
//! configuration. All durations are whole microseconds.

use vstd::prelude::*;

verus! {

/// Number of failed attempts after which the delay stays at its maximum.
pub const RAMP_TRIES: u32 = 16;

/// Delay used when the configured minimum is not strictly positive.
pub const DEFAULT_MIN_DELAY: u64 = 1_000_000;

/// Delay used when the configured maximum is not strictly positive.
pub const DEFAULT_MAX_DELAY: u64 = 4_000_000;

/// Sampling interval used when the configured one is not strictly positive.
pub const DEFAULT_INTERVAL: u64 = 250_000;

/// Position on the ramp: the attempt count, capped at sixteen.
pub open spec fn ramp(tries: u32) -> int {
    if tries < 16 {
        tries as int
    } else {
        16
    }
}

/// Linear interpolation from `min` to `max` in sixteenths, rounded down.
pub open spec fn delay_spec(min: u64, max: u64, tries: u32) -> int {
    min + (ramp(tries) * (max - min)) / 16
}

/// The delay before the next search after `tries_so_far` failed ones.
pub fn delay(min_delay: u64, max_delay: u64, tries_so_far: u32) -> (d: u64)
    requires
        min_delay <= max_delay,
    ensures
        d == delay_spec(min_delay, max_delay, tries_so_far),
        min_delay <= d <= max_delay,
        tries_so_far == 0 ==> d == min_delay,
        tries_so_far >= 16 ==> d == max_delay,
{
    let steps: u64 = if tries_so_far < RAMP_TRIES {
        tries_so_far as u64
    } else {
        16
    };
    let span: u64 = max_delay - min_delay;
    proof {
        lemma_delay_bounds(min_delay, max_delay, tries_so_far);
        assert(steps * span <= 16 * span) by (nonlinear_arith)
            requires
                steps <= 16,
                span >= 0,
        ;
    }
    let scaled: u128 = (steps as u128) * (span as u128);
    let part: u64 = (scaled / 16) as u64;
    min_delay + part
}

/// The delay never leaves the configured range, starts at the minimum and
/// reaches the maximum at the sixteenth attempt.
pub proof fn lemma_delay_bounds(min: u64, max: u64, tries: u32)
    requires
        min <= max,
    ensures
        min <= delay_spec(min, max, tries) <= max,
        tries == 0 ==> delay_spec(min, max, tries) == min,
        tries >= 16 ==> delay_spec(min, max, tries) == max,
{
    let span: int = max - min;
    let r: int = ramp(tries);
    assert(0 <= r * span <= 16 * span) by (nonlinear_arith)
        requires
            0 <= r <= 16,
            span >= 0,
    ;
    assert(r == 0 ==> r * span == 0) by (nonlinear_arith);
}

/// The delay never shrinks as the attempt count grows.
pub proof fn lemma_delay_monotonic(min: u64, max: u64, earlier: u32, later: u32)
    requires
        min <= max,
        earlier <= later,
    ensures
        delay_spec(min, max, earlier) <= delay_spec(min, max, later),
{
    let span: int = max - min;
    let a: int = ramp(earlier);
    let b: int = ramp(later);
    assert(a * span <= b * span) by (nonlinear_arith)
        requires
            0 <= a <= b,
            span >= 0,
    ;
}

/// A validated timing configuration.
#[derive(Debug, Clone, Copy, PartialEq, Eq, Structural)]
pub struct Timing {
    pub min_delay: u64,
    pub max_delay: u64,
    pub interval: u64,
}

impl Timing {
    /// Both delays and the interval are strictly positive and the delays are
    /// in order.
    pub open spec fn wf(&self) -> bool {
        &&& 0 < self.min_delay <= self.max_delay
        &&& 0 < self.interval
    }
}

/// What validation had to correct, for the caller to report.
#[derive(Debug, Clone, Copy, PartialEq, Eq, Structural)]
pub struct Corrections {
    /// The minimum delay was not positive and was set to its default.
    pub min_reset: bool,
    /// The maximum delay was not positive and was set to its default.
    pub max_reset: bool,
    /// The interval was not positive and was set to its default.
    pub interval_reset: bool,
    /// The maximum was below the minimum and the two were exchanged.
    pub swapped: bool,
}

/// A configured value, or its default where the value is zero.
pub open spec fn positive_or(value: u64, fallback: u64) -> u64 {
    if value == 0 {
        fallback
    } else {
        value
    }
}

/// The timing that validation yields for the configured values.
pub open spec fn validated(min_delay: u64, max_delay: u64, interval: u64) -> Timing {
    let lo = positive_or(min_delay, DEFAULT_MIN_DELAY);
    let hi = positive_or(max_delay, DEFAULT_MAX_DELAY);
    Timing {
        min_delay: if hi < lo { hi } else { lo },
        max_delay: if hi < lo { lo } else { hi },
        interval: positive_or(interval, DEFAULT_INTERVAL),
    }
}

/// Corrects a timing configuration: a value of zero takes its default, then
/// delays given in the wrong order are exchanged.
pub fn validate(min_delay: u64, max_delay: u64, interval: u64) -> (r: (Timing, Corrections))
    ensures
        r.0 == validated(min_delay, max_delay, interval),
        r.0.wf(),
        r.1.min_reset == (min_delay == 0),
        r.1.max_reset == (max_delay == 0),
        r.1.interval_reset == (interval == 0),
        r.1.swapped == (positive_or(max_delay, DEFAULT_MAX_DELAY) < positive_or(
            min_delay,
            DEFAULT_MIN_DELAY,
        )),
{
    let min_reset = min_delay == 0;
    let max_reset = max_delay == 0;
    let interval_reset = interval == 0;
    let lo: u64 = if min_reset { DEFAULT_MIN_DELAY } else { min_delay };
    let hi: u64 = if max_reset { DEFAULT_MAX_DELAY } else { max_delay };
    let every: u64 = if interval_reset { DEFAULT_INTERVAL } else { interval };
    let swapped = hi < lo;
    let timing = if swapped {
        Timing { min_delay: hi, max_delay: lo, interval: every }
    } else {
        Timing { min_delay: lo, max_delay: hi, interval: every }
    };
    (timing, Corrections { min_reset, max_reset, interval_reset, swapped })
}

/// Validation orders the delays: the effective minimum never exceeds the
/// effective maximum, and exchanging the two inputs that are both positive
/// gives the same range.
pub proof fn lemma_validated_ordered(min_delay: u64, max_delay: u64, interval: u64)
    ensures
        validated(min_delay, max_delay, interval).min_delay <= validated(
            min_delay,
            max_delay,
            interval,
        ).max_delay,
        min_delay > 0 && max_delay > 0 && max_delay < min_delay ==> validated(
            min_delay,
            max_delay,
            interval,
        ).min_delay == max_delay && validated(min_delay, max_delay, interval).max_delay
            == min_delay,
{
}

/// Time left to sleep in a sampling cycle that already took `elapsed`.
pub fn remaining_sleep(interval: u64, elapsed: u64) -> (r: u64)
    ensures
        r == if elapsed >= interval { 0 } else { interval - elapsed },
{
    if elapsed >= interval {
        0
    } else {
        interval - elapsed
    }
}

} // verus!
