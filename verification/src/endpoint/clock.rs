//! Time, which this crate refuses to read for itself.
//!
//! A clock says what time it is and starts waits on the same timescale. There is no second
//! time source and so nothing to reconcile.

use vstd::prelude::*;

use crate::time::Timestamp;

verus! {

/// A monotonic clock and a way to wait on it.
///
/// [`Clock::now`] may return the same value twice but must never go backwards.
/// [`Clock::sleep_until`] starts a wait that is over at or after the deadline, and at once
/// for a deadline already in the past.
pub trait Clock {
    /// The wait [`Clock::sleep_until`] starts.
    type Sleep;

    /// Whether the clock still has a time to say.
    open spec fn readable(&self) -> bool {
        true
    }

    /// The current time, in the caller's own monotonic timescale.
    fn now(&self) -> Timestamp
        requires
            self.readable(),
    ;

    /// Starts a wait until `deadline`.
    fn sleep_until(&mut self, deadline: Timestamp) -> Self::Sleep;
}

} // verus!
