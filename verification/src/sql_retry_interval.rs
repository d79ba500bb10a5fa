use vstd::prelude::*;

use crate::retry_enumerators::get_random;
use crate::retry_enumerators::get_random_interval;
use crate::retry_enumerators::in_window;
use crate::retry_enumerators::lemma_window_bounds;
use crate::retry_enumerators::sql_exponential_interval_enumerator::bumped;
use crate::retry_enumerators::sql_exponential_interval_enumerator::exp_candidate;
use crate::retry_enumerators::validate;
use crate::retry_enumerators::window_hi;
use crate::retry_enumerators::window_lo;
use crate::retry_enumerators::DEFAULT_RANDOMNESS_TENTHS;
use crate::retry_enumerators::MAX_DRAW_MS;
use crate::retry_enumerators::MAX_INTERVAL_MS;
use crate::sql_client_error::SqlClientError;
use crate::time_span::TimeSpan;

verus! {

/// The exponential backoff strategy in its earliest shape: it also keeps
/// the configured gap interval, and its `reset` restarts only the growth
/// curve — the step counter returns to 1 while the current interval stays
/// where it was, so a sequence frozen at `max` stays exhausted until it is
/// rebuilt.
#[derive(Clone)]
pub struct SqlExponentialIntervalEnumerator {
    /// The step counter; it starts at 1 and advances on every proposal.
    pub internal_counter: u64,
    /// The upper edge of the jitter window, in milliseconds.
    pub max_random: u64,
    /// The lower edge of the jitter window, in milliseconds.
    pub min_random: u64,
    /// The gap interval the jitter window was derived from.
    pub delta_backoff_time: TimeSpan,
    /// The smallest interval the strategy will produce.
    pub min_time_interval: TimeSpan,
    /// The largest interval the strategy will produce.
    pub max_time_interval: TimeSpan,
    /// The interval most recently committed by `move_next`.
    pub current: TimeSpan,
}

impl SqlExponentialIntervalEnumerator {
    /// The configuration is validated and the running state stays in range.
    pub open spec fn wf(&self) -> bool {
        &&& 1 <= self.internal_counter
        &&& self.min_random <= self.max_random
        &&& self.max_random <= MAX_DRAW_MS
        &&& self.min_time_interval@ <= self.max_time_interval@
        &&& self.max_time_interval@ <= MAX_INTERVAL_MS
        &&& self.current@ <= self.max_time_interval@
    }

    /// The fields `new_random` gives a freshly constructed enumerator.
    pub open spec fn fresh(self, gap: TimeSpan, tenths: int, max: TimeSpan, min: TimeSpan) -> bool {
        &&& self.internal_counter == 1
        &&& self.min_random == window_lo(gap@, tenths)
        &&& self.max_random == window_hi(gap@, tenths)
        &&& self.delta_backoff_time == gap
        &&& self.min_time_interval == min
        &&& self.max_time_interval == max
        &&& self.current@ == 0
        &&& self.wf()
    }

    /// The state this enumerator returns to on `reset`: only the step
    /// counter returns to 1; the current interval and the configuration
    /// are retained.
    pub open spec fn resetted(self) -> Self {
        SqlExponentialIntervalEnumerator {
            internal_counter: 1,
            max_random: self.max_random,
            min_random: self.min_random,
            delta_backoff_time: self.delta_backoff_time,
            min_time_interval: self.min_time_interval,
            max_time_interval: self.max_time_interval,
            current: self.current,
        }
    }

    /// What `next_interval` returns when it draws `d` from the window of
    /// `pre`: the exact candidate when that candidate is acceptable, and
    /// otherwise some interval above `max` (the saturated arithmetic may
    /// not represent an oversized candidate exactly).
    pub open spec fn proposal_from(pre: Self, r_ms: int, d: int) -> bool {
        let cand: int = exp_candidate(pre.min_time_interval@, pre.internal_counter as int, d);
        &&& in_window(pre.min_random as int, pre.max_random as int, d)
        &&& (cand <= pre.max_time_interval@ ==> r_ms == cand)
        &&& (cand > pre.max_time_interval@ ==> r_ms > pre.max_time_interval@)
    }

    /// What one `move_next` step does when it draws `d`: an acceptable
    /// candidate is committed and the call succeeds; any other draw leaves
    /// the current interval alone and the call fails.
    pub open spec fn advanced_by(pre: Self, post: Self, r: bool, d: int) -> bool {
        let cand: int = exp_candidate(pre.min_time_interval@, pre.internal_counter as int, d);
        &&& in_window(pre.min_random as int, pre.max_random as int, d)
        &&& (cand <= pre.max_time_interval@ ==> r && post.current@ == cand)
        &&& (cand > pre.max_time_interval@ ==> !r)
    }

    /// Creates a new enumerator with the given randomness fraction, in
    /// tenths. Construction succeeds exactly when the intervals pass
    /// validation: `gap` and `max` at most 120 s and `min` at most `max`.
    pub fn new_random(
        delta_backoff_time: TimeSpan,
        max_time_interval: TimeSpan,
        min_time_interval: TimeSpan,
        randomness_tenths: u64,
    ) -> (r: Result<Self, SqlClientError>)
        requires
            randomness_tenths <= 9,
        ensures
            r is Ok <==> (max_time_interval@ <= MAX_INTERVAL_MS && delta_backoff_time@
                <= MAX_INTERVAL_MS && min_time_interval@ <= max_time_interval@),
            r matches Ok(s) ==> s.fresh(
                delta_backoff_time,
                randomness_tenths as int,
                max_time_interval,
                min_time_interval,
            ),
            r matches Err(e) ==> e matches SqlClientError::ArgumentOutOfRange(_, _),
    {
        match validate(&delta_backoff_time, &max_time_interval, &min_time_interval) {
            Err(e) => Err(e),
            Ok(()) => {
                let (min_random, max_random) = get_random_interval(
                    &delta_backoff_time,
                    randomness_tenths,
                );
                proof {
                    lemma_window_bounds(delta_backoff_time@, randomness_tenths as int);
                }
                Ok(
                    Self {
                        internal_counter: 1,
                        max_random,
                        min_random,
                        delta_backoff_time,
                        max_time_interval,
                        min_time_interval,
                        current: TimeSpan { millis: 0 },
                    },
                )
            },
        }
    }

    /// Creates a new enumerator with the default randomness fraction.
    pub fn new(
        delta_backoff_time: TimeSpan,
        max_time_interval: TimeSpan,
        min_time_interval: TimeSpan,
    ) -> (r: Result<Self, SqlClientError>)
        ensures
            r is Ok <==> (max_time_interval@ <= MAX_INTERVAL_MS && delta_backoff_time@
                <= MAX_INTERVAL_MS && min_time_interval@ <= max_time_interval@),
            r matches Ok(s) ==> s.fresh(
                delta_backoff_time,
                2,
                max_time_interval,
                min_time_interval,
            ),
            r matches Err(e) ==> e matches SqlClientError::ArgumentOutOfRange(_, _),
    {
        Self::new_random(
            delta_backoff_time,
            max_time_interval,
            min_time_interval,
            DEFAULT_RANDOMNESS_TENTHS,
        )
    }

    /// Proposes the next interval and advances the step counter, whether or
    /// not the proposal is later accepted. The arithmetic saturates rather
    /// than wraps; a saturated proposal is necessarily above `max`, so
    /// acceptance is still decided by the exact candidate value.
    pub fn next_interval(&mut self) -> (r: TimeSpan)
        requires
            old(self).wf(),
        ensures
            final(self).internal_counter as int == bumped(old(self).internal_counter as int),
            final(self).max_random == old(self).max_random,
            final(self).min_random == old(self).min_random,
            final(self).delta_backoff_time == old(self).delta_backoff_time,
            final(self).min_time_interval == old(self).min_time_interval,
            final(self).max_time_interval == old(self).max_time_interval,
            final(self).current == old(self).current,
            final(self).wf(),
            exists|d: int| #[trigger] Self::proposal_from(*old(self), r@, d),
    {
        let random = get_random(self.min_random, self.max_random);
        let squared = match self.internal_counter.checked_mul(self.internal_counter) {
            Some(s) => s,
            None => u64::MAX,
        };
        proof {
            assert(self.internal_counter as int * self.internal_counter as int >= 1)
                by (nonlinear_arith)
                requires
                    self.internal_counter >= 1,
            ;
        }
        let exponent = squared - 1;
        let delta = match exponent.checked_mul(random) {
            Some(d) => d,
            None => u64::MAX,
        };
        let new_millis = self.min_time_interval.millis.saturating_add(delta);
        self.internal_counter = self.internal_counter.saturating_add(1);
        let result = TimeSpan { millis: new_millis };
        proof {
            let c: int = old(self).internal_counter as int;
            let d: int = random as int;
            if c * c > u64::MAX {
                // The counter square saturated; any nonzero draw puts both
                // the exact candidate and the computed interval above `max`.
                if d == 0 {
                    assert((c * c - 1) * 0 == 0) by (nonlinear_arith);
                } else {
                    assert((c * c - 1) * d >= c * c - 1) by (nonlinear_arith)
                        requires
                            d >= 1,
                            c * c >= 1,
                    ;
                    assert(exponent as int * d >= exponent as int) by (nonlinear_arith)
                        requires
                            d >= 1,
                            exponent as int >= 0,
                    ;
                }
            }
            assert(Self::proposal_from(*old(self), result@, d));
        }
        result
    }

    /// The current retry interval.
    pub fn current(&self) -> (r: TimeSpan)
        ensures
            r == self.current,
    {
        self.current
    }

    /// Moves to the next retry interval. While the current interval is
    /// below `max`, a proposal is drawn (advancing the step counter even on
    /// failure); a proposal at or below `max` (boundary included) is
    /// committed and the call returns true, and one above `max` leaves the
    /// current interval frozen and returns false. Once the current interval
    /// has reached `max`, every call fails without drawing.
    pub fn move_next(&mut self) -> (r: bool)
        requires
            old(self).wf(),
        ensures
            final(self).wf(),
            final(self).min_random == old(self).min_random,
            final(self).max_random == old(self).max_random,
            final(self).delta_backoff_time == old(self).delta_backoff_time,
            final(self).min_time_interval == old(self).min_time_interval,
            final(self).max_time_interval == old(self).max_time_interval,
            !r ==> final(self).current == old(self).current,
            old(self).current@ >= old(self).max_time_interval@ ==> !r && *final(self) == *old(self),
            old(self).current@ < old(self).max_time_interval@ ==> final(self).internal_counter as int
                == bumped(old(self).internal_counter as int),
            old(self).current@ < old(self).max_time_interval@ ==> exists|d: int|
                #[trigger] Self::advanced_by(*old(self), *final(self), r, d),
            r ==> old(self).min_time_interval@ <= final(self).current@ <= old(self).max_time_interval@,
    {
        if self.current.millis < self.max_time_interval.millis {
            let next = self.next_interval();
            if next.millis <= self.max_time_interval.millis {
                self.current = next;
                proof {
                    let d: int = choose|d: int|
                        #[trigger] Self::proposal_from(*old(self), next@, d);
                    let c: int = old(self).internal_counter as int;
                    assert((c * c - 1) * d >= 0) by (nonlinear_arith)
                        requires
                            c >= 1,
                            d >= 0,
                    ;
                    assert(Self::advanced_by(*old(self), *self, true, d));
                }
                true
            } else {
                proof {
                    let d: int = choose|d: int|
                        #[trigger] Self::proposal_from(*old(self), next@, d);
                    assert(Self::advanced_by(*old(self), *self, false, d));
                }
                false
            }
        } else {
            false
        }
    }

    /// Resets the step counter to 1 without touching the current interval:
    /// the growth curve restarts, but a sequence already frozen at `max`
    /// stays exhausted.
    pub fn reset(&mut self)
        ensures
            *final(self) == old(self).resetted(),
    {
        self.internal_counter = 1;
    }
}

/// Resetting twice in a row leaves exactly the state a single reset leaves.
pub proof fn lemma_reset_idempotent(e: SqlExponentialIntervalEnumerator)
    ensures
        e.resetted().resetted() == e.resetted(),
{
}

} // verus!
