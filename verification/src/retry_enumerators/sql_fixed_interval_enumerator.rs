use vstd::prelude::*;

use crate::retry_enumerators::get_random;
use crate::retry_enumerators::get_random_interval;
use crate::retry_enumerators::in_window;
use crate::retry_enumerators::window_hi;
use crate::retry_enumerators::window_lo;
use crate::retry_enumerators::DEFAULT_RANDOMNESS_TENTHS;
use crate::sql_client_error::SqlClientError;
use crate::time_span::TimeSpan;

verus! {

/// The fixed backoff strategy: every step waits a freshly jittered interval
/// of constant magnitude, drawn from a window around the configured gap.
/// The sequence never exhausts.
#[derive(Clone)]
pub struct SqlFixedIntervalEnumerator {
    /// The upper edge of the jitter window, in milliseconds.
    pub max_random: u64,
    /// The lower edge of the jitter window, in milliseconds.
    pub min_random: u64,
    /// The interval most recently produced by `move_next`.
    pub current: TimeSpan,
}

impl SqlFixedIntervalEnumerator {
    /// The jitter window is ordered.
    pub open spec fn wf(&self) -> bool {
        self.min_random <= self.max_random
    }

    /// The state this enumerator returns to on `reset`: the window is
    /// retained and the current interval is cleared.
    pub open spec fn resetted(self) -> Self {
        SqlFixedIntervalEnumerator {
            max_random: self.max_random,
            min_random: self.min_random,
            current: TimeSpan { millis: 0 },
        }
    }

    /// Creates a new enumerator with the given randomness fraction, in
    /// tenths. The gap is not range-validated for this strategy, and
    /// construction cannot fail.
    pub fn new_random(delta_backoff_time: TimeSpan, randomness_tenths: u64) -> (r: Result<
        Self,
        SqlClientError,
    >)
        requires
            randomness_tenths <= 9,
        ensures
            r is Ok,
            r matches Ok(s) ==> (s.min_random == window_lo(
                delta_backoff_time@,
                randomness_tenths as int,
            ) && s.max_random == window_hi(delta_backoff_time@, randomness_tenths as int)
                && s.current@ == 0 && s.wf()),
    {
        let (min_random, max_random) = get_random_interval(&delta_backoff_time, randomness_tenths);
        Ok(Self { max_random, min_random, current: TimeSpan { millis: 0 } })
    }

    /// Creates a new enumerator with the default randomness fraction.
    pub fn new(delta_backoff_time: TimeSpan) -> (r: Result<Self, SqlClientError>)
        ensures
            r is Ok,
            r matches Ok(s) ==> (s.min_random == window_lo(delta_backoff_time@, 2)
                && s.max_random == window_hi(delta_backoff_time@, 2) && s.current@ == 0
                && s.wf()),
    {
        Self::new_random(delta_backoff_time, DEFAULT_RANDOMNESS_TENTHS)
    }

    /// Draws the next interval from the jitter window; the state does not
    /// change.
    pub fn next_interval(&mut self) -> (r: TimeSpan)
        requires
            old(self).wf(),
        ensures
            *final(self) == *old(self),
            in_window(old(self).min_random as int, old(self).max_random as int, r@),
    {
        let random = get_random(self.min_random, self.max_random);
        TimeSpan { millis: random }
    }

    /// The current retry interval.
    pub fn current(&self) -> (r: TimeSpan)
        ensures
            r == self.current,
    {
        self.current
    }

    /// Moves to the next retry interval: the current interval becomes a
    /// fresh draw from the jitter window. This strategy always succeeds; a
    /// degenerate window pins the draw to its edge.
    pub fn move_next(&mut self) -> (r: bool)
        requires
            old(self).wf(),
        ensures
            r == true,
            final(self).wf(),
            final(self).min_random == old(self).min_random,
            final(self).max_random == old(self).max_random,
            in_window(old(self).min_random as int, old(self).max_random as int, final(self).current@),
            old(self).min_random == old(self).max_random ==> final(self).current@ == old(self).min_random,
    {
        let next = self.next_interval();
        self.current = next;
        true
    }

    /// Resets the enumerator: the current interval is cleared and the
    /// jitter window retained.
    pub fn reset(&mut self)
        ensures
            *final(self) == old(self).resetted(),
    {
        self.current = TimeSpan { millis: 0 };
    }
}

/// Resetting twice in a row leaves exactly the state a single reset leaves.
pub proof fn lemma_reset_idempotent(e: SqlFixedIntervalEnumerator)
    ensures
        e.resetted().resetted() == e.resetted(),
{
}

} // verus!
