use vstd::prelude::*;

use crate::sql_client_error::SqlClientError;
use crate::time_span::TimeSpan;

verus! {

/// The "retry immediately" strategy: it never waits, never exhausts, and
/// holds no state at all.
#[derive(Clone)]
pub struct SqlNoneIntervalEnumerator;

impl SqlNoneIntervalEnumerator {
    /// Creates a new enumerator; construction cannot fail.
    pub fn new() -> (r: Result<Self, SqlClientError>)
        ensures
            r is Ok,
    {
        Ok(Self)
    }

    /// The current retry interval, which is always zero.
    pub fn current(&self) -> (r: TimeSpan)
        ensures
            r@ == 0,
    {
        TimeSpan { millis: 0 }
    }

    /// Moves to the next retry interval; this strategy always has one, and
    /// the observable state never changes.
    pub fn move_next(&mut self) -> (r: bool)
        ensures
            r == true,
            *final(self) == *old(self),
    {
        true
    }

    /// Resets the enumerator; there is no state to reset.
    pub fn reset(&mut self)
        ensures
            *final(self) == *old(self),
    {
    }
}

} // verus!
