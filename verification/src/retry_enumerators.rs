use vstd::arithmetic::div_mod::lemma_div_is_ordered;
use vstd::prelude::*;

use crate::sql_client_error::SqlClientError;
use crate::time_span::TimeSpan;

use rand::Rng;

pub mod sql_exponential_interval_enumerator;
pub mod sql_fixed_interval_enumerator;
pub mod sql_incremental_interval_enumerator;
pub mod sql_none_interval_enumerator;

verus! {

/// The largest legal `min`, `max` or `gap` interval, in milliseconds (120 s).
pub const MAX_INTERVAL_MS: u64 = 120_000;

/// The randomness fraction used by the public constructors, in tenths (0.2).
pub const DEFAULT_RANDOMNESS_TENTHS: u64 = 2;

/// An upper bound on either edge of a jitter window derived from a legal gap:
/// a gap of at most 120 s scaled by at most 1.9 stays at or below 228 s.
pub const MAX_DRAW_MS: u64 = 228_000;

/// The gap scaled up by `(10 + tenths) / 10`, rounded to the nearest
/// millisecond (halves away from zero).
pub open spec fn scaled_up(gap_ms: int, tenths: int) -> int {
    (gap_ms * (10 + tenths) + 5) / 10
}

/// The gap scaled down by `(10 - tenths) / 10`, rounded to the nearest
/// millisecond (halves away from zero).
pub open spec fn scaled_down(gap_ms: int, tenths: int) -> int {
    (gap_ms * (10 - tenths) + 5) / 10
}

/// The upper edge of the jitter window: the scaled-up gap, clamped to the
/// largest representable millisecond count.
pub open spec fn window_hi(gap_ms: int, tenths: int) -> int {
    if scaled_up(gap_ms, tenths) > u64::MAX {
        u64::MAX as int
    } else {
        scaled_up(gap_ms, tenths)
    }
}

/// The lower edge of the jitter window: the scaled-down gap. An out-of-range
/// value falls back to zero rather than to the representable maximum; the
/// asymmetry with `window_hi` is deliberate and mirrors the scaling of the
/// type's absolute floor by a constant fraction.
pub open spec fn window_lo(gap_ms: int, tenths: int) -> int {
    if scaled_down(gap_ms, tenths) > u64::MAX {
        0
    } else {
        scaled_down(gap_ms, tenths)
    }
}

/// The values a draw from the window `[lo, hi)` can take: `lo` itself when
/// the window is degenerate, otherwise anything in the half-open range.
pub open spec fn in_window(lo: int, hi: int, d: int) -> bool {
    if lo == hi {
        d == lo
    } else {
        lo <= d < hi
    }
}

/// The window edges are ordered, representable, and bounded by
/// `MAX_DRAW_MS` whenever the gap is legal.
pub proof fn lemma_window_bounds(gap_ms: int, tenths: int)
    requires
        0 <= gap_ms,
        0 <= tenths <= 9,
    ensures
        0 <= window_lo(gap_ms, tenths),
        window_lo(gap_ms, tenths) <= window_hi(gap_ms, tenths),
        window_hi(gap_ms, tenths) <= u64::MAX,
        gap_ms <= MAX_INTERVAL_MS ==> window_hi(gap_ms, tenths) <= MAX_DRAW_MS,
{
    assert(gap_ms * (10 - tenths) >= 0) by (nonlinear_arith)
        requires
            0 <= gap_ms,
            tenths <= 9,
    ;
    assert(gap_ms * (10 - tenths) <= gap_ms * (10 + tenths)) by (nonlinear_arith)
        requires
            0 <= gap_ms,
            0 <= tenths,
    ;
    lemma_div_is_ordered(0, gap_ms * (10 - tenths) + 5, 10);
    lemma_div_is_ordered(gap_ms * (10 - tenths) + 5, gap_ms * (10 + tenths) + 5, 10);
    if gap_ms <= MAX_INTERVAL_MS {
        assert(gap_ms * (10 + tenths) <= MAX_INTERVAL_MS * 19) by (nonlinear_arith)
            requires
                0 <= gap_ms <= MAX_INTERVAL_MS,
                0 <= tenths <= 9,
        ;
        lemma_div_is_ordered(gap_ms * (10 + tenths) + 5, MAX_INTERVAL_MS * 19 + 5, 10);
    }
}

/// Relies on `rand::thread_rng` and `rand::Rng::gen_range` over the half-open
/// range `lo..hi`: for a non-empty range, the sample lies in `[lo, hi)`.
#[verifier::external_body]
fn gen_range_u64(lo: u64, hi: u64) -> (r: u64)
    requires
        lo < hi,
    ensures
        lo <= r < hi,
{
    rand::thread_rng().gen_range(lo..hi)
}

/// Draws a value from the window `[min_random, max_random)`. A degenerate
/// window (both edges equal) eliminates the randomness and yields the edge
/// itself, which makes a configured sequence repeatable.
pub fn get_random(min_random: u64, max_random: u64) -> (r: u64)
    requires
        min_random <= max_random,
    ensures
        in_window(min_random as int, max_random as int, r as int),
{
    if max_random == min_random {
        min_random
    } else {
        gen_range_u64(min_random, max_random)
    }
}

/// Derives the jitter window on either side of the gap interval: the gap
/// scaled by `(1 - randomness)` and `(1 + randomness)`, rounded to whole
/// milliseconds, with out-of-range results clamped as `window_lo` and
/// `window_hi` describe. The randomness fraction is given in tenths.
pub fn get_random_interval(gap_time_interval: &TimeSpan, randomness_tenths: u64) -> (r: (
    u64,
    u64,
))
    requires
        randomness_tenths <= 9,
    ensures
        r.0 == window_lo(gap_time_interval@, randomness_tenths as int),
        r.1 == window_hi(gap_time_interval@, randomness_tenths as int),
        r.0 <= r.1,
{
    let gap_ms = gap_time_interval.millis as u128;
    proof {
        assert(gap_ms * ((10 + randomness_tenths) as u128) <= (u64::MAX as u128) * 19)
            by (nonlinear_arith)
            requires
                gap_ms <= u64::MAX as u128,
                randomness_tenths <= 9,
        ;
        assert(gap_ms * ((10 - randomness_tenths) as u128) <= (u64::MAX as u128) * 19)
            by (nonlinear_arith)
            requires
                gap_ms <= u64::MAX as u128,
                randomness_tenths <= 9,
        ;
    }
    let temp_max = (gap_ms * ((10 + randomness_tenths) as u128) + 5) / 10;
    let temp_min = (gap_ms * ((10 - randomness_tenths) as u128) + 5) / 10;
    let max_random: u64 = if temp_max > (u64::MAX as u128) {
        u64::MAX
    } else {
        temp_max as u64
    };
    let min_random: u64 = if temp_min > (u64::MAX as u128) {
        0
    } else {
        temp_min as u64
    };
    proof {
        lemma_window_bounds(gap_time_interval@, randomness_tenths as int);
    }
    (min_random, max_random)
}

/// Validates a `(gap, max, min)` interval configuration: every interval must
/// lie between zero and 120 s, and `max` must not be below `min`. The guard
/// order follows the validator's reporting quirks: an over-limit `max` is
/// reported against the `min_time_interval` parameter.
pub fn validate(
    gap_time_interval: &TimeSpan,
    max_time_interval: &TimeSpan,
    min_time_interval: &TimeSpan,
) -> (r: Result<(), SqlClientError>)
    ensures
        r is Ok <==> (max_time_interval@ <= MAX_INTERVAL_MS && gap_time_interval@
            <= MAX_INTERVAL_MS && min_time_interval@ <= max_time_interval@),
        max_time_interval@ > MAX_INTERVAL_MS ==> (r matches Err(
            SqlClientError::ArgumentOutOfRange(p, _),
        ) && p@ == "min_time_interval"@),
        max_time_interval@ <= MAX_INTERVAL_MS && gap_time_interval@ > MAX_INTERVAL_MS ==> (
        r matches Err(SqlClientError::ArgumentOutOfRange(p, _)) && p@ == "gap_time_interval"@),
        max_time_interval@ <= MAX_INTERVAL_MS && gap_time_interval@ <= MAX_INTERVAL_MS
            && max_time_interval@ < min_time_interval@ ==> (r matches Err(
            SqlClientError::ArgumentOutOfRange(p, _),
        ) && p@ == "max_time_interval"@),
{
    if max_time_interval.millis > MAX_INTERVAL_MS {
        Err(
            SqlClientError::ArgumentOutOfRange(
                "min_time_interval".to_owned(),
                "min_time_interval must be between 0s and 120s".to_owned(),
            ),
        )
    } else if gap_time_interval.millis > MAX_INTERVAL_MS {
        Err(
            SqlClientError::ArgumentOutOfRange(
                "gap_time_interval".to_owned(),
                "gap_time_interval must be between 0s and 120s".to_owned(),
            ),
        )
    } else if max_time_interval.millis < min_time_interval.millis {
        Err(
            SqlClientError::ArgumentOutOfRange(
                "max_time_interval".to_owned(),
                "max_time_interval must be greater than min_time_interval".to_owned(),
            ),
        )
    } else {
        Ok(())
    }
}

/// Clamps an interval into `[min, max]`. A value at or below `max` is kept
/// as it is (floored at `min`); one above `max` is replaced by a draw from
/// the upper fifth of the range below `max`, again floored at `min`.
pub fn ensure_in_range(
    min_time_interval: &TimeSpan,
    max_time_interval: &TimeSpan,
    time_interval: TimeSpan,
) -> (r: TimeSpan)
    ensures
        r@ >= min_time_interval@,
        time_interval@ <= max_time_interval@ ==> r@ == (if time_interval@ < min_time_interval@ {
            min_time_interval@
        } else {
            time_interval@
        }),
        min_time_interval@ <= max_time_interval@ ==> r@ <= max_time_interval@,
{
    let guarded_max = if time_interval.millis <= max_time_interval.millis {
        time_interval
    } else {
        let max_ms = max_time_interval.millis;
        let lower_edge = ((max_ms as u128) * 8 / 10) as u64;
        proof {
            assert((max_ms as u128) * 8 / 10 <= max_ms as u128) by (nonlinear_arith);
        }
        let fuzzed = get_random(lower_edge, max_ms);
        TimeSpan { millis: fuzzed }
    };
    if guarded_max.millis < min_time_interval.millis {
        *min_time_interval
    } else {
        guarded_max
    }
}

} // verus!
