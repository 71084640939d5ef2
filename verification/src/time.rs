//! Time, as this crate understands it.
//!
//! The engine measures time in nanoseconds and reserves the largest value to mean "no
//! time". It names no epoch and no clock, so this crate does not choose one either. A
//! [`Timestamp`] is an opaque count of nanoseconds in whatever monotonic timescale the
//! caller keeps.

use vstd::prelude::*;

use crate::error::{Error, ErrorView};
use crate::text;

verus! {

/// Why the reserved value is refused.
pub const RESERVED_TIMESTAMP: &'static str =
    "u64::MAX is reserved by ngtcp2 to mean the absence of a timestamp";

/// Why a duration is refused.
pub const DURATION_OVERFLOW: &'static str = "duration in milliseconds overflows a nanosecond count";

/// A point in the caller's own monotonic timescale, in nanoseconds.
#[derive(Clone, Copy, Debug, PartialEq, Eq, PartialOrd, Ord, Hash, Structural)]
pub struct Timestamp(u64);

impl View for Timestamp {
    type V = nat;

    closed spec fn view(&self) -> nat {
        self.0 as nat
    }
}

impl Timestamp {
    /// A timestamp is never the value reserved for the absence of one.
    #[verifier::type_invariant]
    spec fn is_set(self) -> bool {
        self.0 != u64::MAX
    }

    /// Wraps a nanosecond count from the caller's clock.
    ///
    /// The reserved value is refused: letting it through would make a real time
    /// indistinguishable from the absence of one.
    pub fn from_nanos(nanos: u64) -> (made: Result<Self, Error>)
        ensures
            match made {
                Ok(timestamp) => nanos != u64::MAX && timestamp@ == nanos,
                Err(error) => nanos == u64::MAX && error@ == ErrorView::invalid_input(
                    RESERVED_TIMESTAMP@,
                ),
            },
    {
        if nanos == u64::MAX {
            return Err(Error::invalid_input(RESERVED_TIMESTAMP));
        }
        Ok(Self(nanos))
    }

    /// The wrapped nanosecond count.
    pub fn as_nanos(self) -> (nanos: u64)
        ensures
            nanos == self@,
            nanos != u64::MAX,
    {
        proof {
            use_type_invariant(&self);
        }
        self.0
    }

    /// The raw value the engine expects.
    pub fn as_raw(self) -> (raw: u64)
        ensures
            raw == self@,
            raw != u64::MAX,
    {
        proof {
            use_type_invariant(&self);
        }
        self.0
    }

    /// Interprets a raw engine timestamp, mapping the reserved value to `None`.
    pub fn from_raw(raw: u64) -> (read: Option<Self>)
        ensures
            read is Some <==> raw != u64::MAX,
            read matches Some(timestamp) ==> timestamp@ == raw,
    {
        if raw == u64::MAX {
            None
        } else {
            Some(Self(raw))
        }
    }

    /// The debug form.
    pub fn debug_text(self) -> (shown: String)
        ensures
            shown@ == "Timestamp("@ + text::decimal(self@) + "ns)"@,
    {
        let mut shown = text::owned("Timestamp(");
        text::append_decimal(&mut shown, self.0);
        text::append(&mut shown, "ns)");
        shown
    }
}

/// A span of time in nanoseconds.
///
/// Kept distinct from [`Timestamp`] so that a point in time and a length of time cannot be
/// passed for one another.
#[derive(Clone, Copy, Debug, PartialEq, Eq, PartialOrd, Ord, Hash, Structural)]
pub struct Duration(u64);

impl View for Duration {
    type V = nat;

    closed spec fn view(&self) -> nat {
        self.0 as nat
    }
}

impl Default for Duration {
    fn default() -> (duration: Self)
        ensures
            duration@ == 0,
    {
        Self(0)
    }
}

impl Duration {
    /// Wraps a nanosecond count.
    pub fn from_nanos(nanos: u64) -> (duration: Self)
        ensures
            duration@ == nanos,
    {
        Self(nanos)
    }

    /// Builds a duration from whole milliseconds.
    ///
    /// A value that overflows a nanosecond count is refused.
    pub fn from_millis(millis: u64) -> (made: Result<Self, Error>)
        ensures
            match made {
                Ok(duration) => {
                    &&& millis * 1_000_000 <= u64::MAX
                    &&& duration@ == millis * 1_000_000
                },
                Err(error) => millis * 1_000_000 > u64::MAX && error@
                    == ErrorView::invalid_input(DURATION_OVERFLOW@),
            },
    {
        match millis.checked_mul(1_000_000) {
            Some(nanos) => Ok(Self(nanos)),
            None => Err(Error::invalid_input(DURATION_OVERFLOW)),
        }
    }

    /// The wrapped nanosecond count.
    pub fn as_nanos(self) -> (nanos: u64)
        ensures
            nanos == self@,
    {
        self.0
    }

    /// The raw value the engine expects.
    pub fn as_raw(self) -> (raw: u64)
        ensures
            raw == self@,
    {
        self.0
    }

    /// The debug form.
    pub fn debug_text(self) -> (shown: String)
        ensures
            shown@ == "Duration("@ + text::decimal(self@) + "ns)"@,
    {
        let mut shown = text::owned("Duration(");
        text::append_decimal(&mut shown, self.0);
        text::append(&mut shown, "ns)");
        shown
    }
}

} // verus!
