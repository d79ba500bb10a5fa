use vstd::prelude::*;

verus! {

/// Milliseconds in one second, used by the second-based conversions.
pub const MILLIS_PER_SECOND: u64 = 1000;

/// A non-negative span of time with millisecond resolution.
///
/// All interval arithmetic in this crate is carried out on whole
/// milliseconds, so a span is just its millisecond count.
#[derive(Clone, Copy, Debug, PartialEq, Eq, Structural)]
pub struct TimeSpan {
    /// The whole number of milliseconds in this span.
    pub millis: u64,
}

impl View for TimeSpan {
    type V = int;

    open spec fn view(&self) -> int {
        self.millis as int
    }
}

impl TimeSpan {
    /// The empty span.
    pub fn zero() -> (r: TimeSpan)
        ensures
            r@ == 0,
    {
        TimeSpan { millis: 0 }
    }

    /// The span of `millis` milliseconds.
    pub fn from_millis(millis: u64) -> (r: TimeSpan)
        ensures
            r@ == millis,
    {
        TimeSpan { millis }
    }

    /// The span of `secs` whole seconds.
    pub fn from_secs(secs: u64) -> (r: TimeSpan)
        requires
            secs * 1000 <= u64::MAX,
        ensures
            r@ == secs * 1000,
    {
        TimeSpan { millis: secs * MILLIS_PER_SECOND }
    }

    /// The whole number of milliseconds in this span.
    pub fn as_millis(&self) -> (r: u64)
        ensures
            r == self@,
    {
        self.millis
    }

    /// The whole number of seconds in this span, truncating any remainder.
    pub fn as_secs(&self) -> (r: u64)
        ensures
            r == self@ / 1000,
    {
        self.millis / MILLIS_PER_SECOND
    }
}

} // verus!

