use vstd::prelude::*;

use crate::retry_enumerators::get_random;
use crate::retry_enumerators::get_random_interval;
use crate::retry_enumerators::in_window;
use crate::retry_enumerators::lemma_window_bounds;
use crate::retry_enumerators::validate;
use crate::retry_enumerators::window_hi;
use crate::retry_enumerators::window_lo;
use crate::retry_enumerators::DEFAULT_RANDOMNESS_TENTHS;
use crate::retry_enumerators::MAX_DRAW_MS;
use crate::retry_enumerators::MAX_INTERVAL_MS;
use crate::sql_client_error::SqlClientError;
use crate::time_span::TimeSpan;

verus! {

/// The interval the incremental strategy proposes for its next step: the
/// floor `min` while the current interval is still below it, and otherwise
/// the current interval advanced by the drawn step `d`.
pub open spec fn inc_candidate(current_ms: int, min_ms: int, d: int) -> int {
    if current_ms < min_ms {
        min_ms
    } else {
        current_ms + d
    }
}

/// The incremental (linear) backoff strategy: the first step starts at
/// `min`, every later step adds one jittered draw, and the sequence
/// exhausts once a proposed interval would exceed `max`.
#[derive(Clone)]
pub struct SqlIncrementalIntervalEnumerator {
    /// The upper edge of the jitter window, in milliseconds.
    pub max_random: u64,
    /// The lower edge of the jitter window, in milliseconds.
    pub min_random: u64,
    /// The smallest interval the strategy will produce.
    pub min_time_interval: TimeSpan,
    /// The largest interval the strategy will produce.
    pub max_time_interval: TimeSpan,
    /// The interval most recently committed by `move_next`.
    pub current: TimeSpan,
}

impl SqlIncrementalIntervalEnumerator {
    /// The configuration is validated and the running state stays in range:
    /// the window is ordered and bounded, `min` does not exceed `max`,
    /// `max` is legal, and the current interval never exceeds `max`.
    pub open spec fn wf(&self) -> bool {
        &&& self.min_random <= self.max_random
        &&& self.max_random <= MAX_DRAW_MS
        &&& self.min_time_interval@ <= self.max_time_interval@
        &&& self.max_time_interval@ <= MAX_INTERVAL_MS
        &&& self.current@ <= self.max_time_interval@
    }

    /// The fields `new_random` gives a freshly constructed enumerator.
    pub open spec fn fresh(self, gap_ms: int, tenths: int, max: TimeSpan, min: TimeSpan) -> bool {
        &&& self.min_random == window_lo(gap_ms, tenths)
        &&& self.max_random == window_hi(gap_ms, tenths)
        &&& self.min_time_interval == min
        &&& self.max_time_interval == max
        &&& self.current@ == 0
        &&& self.wf()
    }

    /// The state this enumerator returns to on `reset`: the configuration
    /// is retained and the current interval is cleared, so the next step
    /// floors at `min` again.
    pub open spec fn resetted(self) -> Self {
        SqlIncrementalIntervalEnumerator {
            max_random: self.max_random,
            min_random: self.min_random,
            min_time_interval: self.min_time_interval,
            max_time_interval: self.max_time_interval,
            current: TimeSpan { millis: 0 },
        }
    }

    /// What `next_interval` returns when it draws `d` from the window of
    /// `pre`: exactly the proposed candidate.
    pub open spec fn proposal_from(pre: Self, r_ms: int, d: int) -> bool {
        &&& in_window(pre.min_random as int, pre.max_random as int, d)
        &&& r_ms == inc_candidate(pre.current@, pre.min_time_interval@, d)
    }

    /// What one `move_next` step does when it draws `d`: an acceptable
    /// candidate is committed and the call succeeds; any other draw leaves
    /// the current interval alone and the call fails.
    pub open spec fn advanced_by(pre: Self, post: Self, r: bool, d: int) -> bool {
        let cand: int = inc_candidate(pre.current@, pre.min_time_interval@, d);
        &&& in_window(pre.min_random as int, pre.max_random as int, d)
        &&& (cand <= pre.max_time_interval@ ==> r && post.current@ == cand)
        &&& (cand > pre.max_time_interval@ ==> !r)
    }

    /// Creates a new enumerator with the given randomness fraction, in
    /// tenths. Construction succeeds exactly when the intervals pass
    /// validation: `gap` and `max` at most 120 s and `min` at most `max`.
    pub fn new_random(
        delta_backoff_time: TimeSpan,
        max_time_interval: TimeSpan,
        min_time_interval: TimeSpan,
        randomness_tenths: u64,
    ) -> (r: Result<Self, SqlClientError>)
        requires
            randomness_tenths <= 9,
        ensures
            r is Ok <==> (max_time_interval@ <= MAX_INTERVAL_MS && delta_backoff_time@
                <= MAX_INTERVAL_MS && min_time_interval@ <= max_time_interval@),
            r matches Ok(s) ==> s.fresh(
                delta_backoff_time@,
                randomness_tenths as int,
                max_time_interval,
                min_time_interval,
            ),
            r matches Err(e) ==> e matches SqlClientError::ArgumentOutOfRange(_, _),
    {
        match validate(&delta_backoff_time, &max_time_interval, &min_time_interval) {
            Err(e) => Err(e),
            Ok(()) => {
                let (min_random, max_random) = get_random_interval(
                    &delta_backoff_time,
                    randomness_tenths,
                );
                proof {
                    lemma_window_bounds(delta_backoff_time@, randomness_tenths as int);
                }
                Ok(
                    Self {
                        max_random,
                        min_random,
                        max_time_interval,
                        min_time_interval,
                        current: TimeSpan { millis: 0 },
                    },
                )
            },
        }
    }

    /// Creates a new enumerator with the default randomness fraction.
    pub fn new(
        delta_backoff_time: TimeSpan,
        max_time_interval: TimeSpan,
        min_time_interval: TimeSpan,
    ) -> (r: Result<Self, SqlClientError>)
        ensures
            r is Ok <==> (max_time_interval@ <= MAX_INTERVAL_MS && delta_backoff_time@
                <= MAX_INTERVAL_MS && min_time_interval@ <= max_time_interval@),
            r matches Ok(s) ==> s.fresh(
                delta_backoff_time@,
                2,
                max_time_interval,
                min_time_interval,
            ),
            r matches Err(e) ==> e matches SqlClientError::ArgumentOutOfRange(_, _),
    {
        Self::new_random(
            delta_backoff_time,
            max_time_interval,
            min_time_interval,
            DEFAULT_RANDOMNESS_TENTHS,
        )
    }

    /// Proposes the next interval without committing it: `min` while the
    /// current interval is below `min`, and otherwise the current interval
    /// advanced by one draw from the jitter window. The state does not
    /// change.
    pub fn next_interval(&mut self) -> (r: TimeSpan)
        requires
            old(self).wf(),
        ensures
            *final(self) == *old(self),
            exists|d: int| #[trigger] Self::proposal_from(*old(self), r@, d),
    {
        if self.current.millis < self.min_time_interval.millis {
            let r = self.min_time_interval;
            proof {
                assert(in_window(
                    self.min_random as int,
                    self.max_random as int,
                    self.min_random as int,
                ));
                assert(Self::proposal_from(*self, r@, self.min_random as int));
            }
            r
        } else {
            let random = get_random(self.min_random, self.max_random);
            let r = TimeSpan { millis: self.current.millis + random };
            proof {
                assert(Self::proposal_from(*self, r@, random as int));
            }
            r
        }
    }

    /// The current retry interval.
    pub fn current(&self) -> (r: TimeSpan)
        ensures
            r == self.current,
    {
        self.current
    }

    /// Moves to the next retry interval. A proposed interval at or below
    /// `max` (boundary included) is committed and the call returns true; a
    /// proposal above `max`, or a current interval already at `max`, leaves
    /// the state unchanged and returns false. Committed intervals never
    /// decrease.
    pub fn move_next(&mut self) -> (r: bool)
        requires
            old(self).wf(),
        ensures
            final(self).wf(),
            final(self).min_random == old(self).min_random,
            final(self).max_random == old(self).max_random,
            final(self).min_time_interval == old(self).min_time_interval,
            final(self).max_time_interval == old(self).max_time_interval,
            !r ==> *final(self) == *old(self),
            old(self).current@ >= old(self).max_time_interval@ ==> !r,
            old(self).current@ < old(self).max_time_interval@ ==> exists|d: int|
                #[trigger] Self::advanced_by(*old(self), *final(self), r, d),
            r ==> final(self).current@ >= old(self).current@,
            r ==> old(self).min_time_interval@ <= final(self).current@ <= old(self).max_time_interval@,
    {
        if self.current.millis < self.max_time_interval.millis {
            let next = self.next_interval();
            if next.millis <= self.max_time_interval.millis {
                self.current = next;
                proof {
                    let d: int = choose|d: int|
                        #[trigger] Self::proposal_from(*old(self), next@, d);
                    assert(Self::advanced_by(*old(self), *self, true, d));
                }
                true
            } else {
                proof {
                    let d: int = choose|d: int|
                        #[trigger] Self::proposal_from(*old(self), next@, d);
                    assert(Self::advanced_by(*old(self), *self, false, d));
                }
                false
            }
        } else {
            false
        }
    }

    /// Resets the enumerator: the configuration is retained and the current
    /// interval is cleared, so the next step floors at `min` again.
    pub fn reset(&mut self)
        ensures
            *final(self) == old(self).resetted(),
    {
        self.current = TimeSpan { millis: 0 };
    }
}

/// Resetting twice in a row leaves exactly the state a single reset leaves.
pub proof fn lemma_reset_idempotent(e: SqlIncrementalIntervalEnumerator)
    ensures
        e.resetted().resetted() == e.resetted(),
{
}

} // verus!
