//! A clock over the operating system's monotonic one.
//!
//! A timestamp here is an opaque nanosecond count, and the operating system's instants have
//! no public numeric value. Nothing converts between them, so this picks an origin, the
//! instant the clock was created, and reports nanoseconds since then. Timestamps from two
//! clocks are therefore not comparable.

use vstd::prelude::*;

use crate::time::Timestamp;

verus! {

/// An instant of the operating system's monotonic clock.
#[verifier::external_type_specification]
#[verifier::external_body]
pub struct ExInstant(std::time::Instant);

/// Calls [`std::time::Instant::now`]. Nothing is claimed of the instant it returns.
#[verifier::external_body]
fn instant_now() -> std::time::Instant {
    std::time::Instant::now()
}

/// The time from one instant to another, which is none where the first is the later one.
pub uninterp spec fn span(
    earlier: std::time::Instant,
    later: std::time::Instant,
) -> std::time::Duration;

/// Calls [`std::time::Instant::saturating_duration_since`], which gives the time from the
/// instant it is handed to the one it is asked of, or none where that is the later one. The
/// claim is that the two instants settle it.
#[verifier::external_body]
fn since(later: &std::time::Instant, earlier: std::time::Instant) -> (duration:
    std::time::Duration)
    ensures
        duration == span(earlier, *later),
{
    later.saturating_duration_since(earlier)
}

/// How many nanoseconds a duration holds.
pub uninterp spec fn nanos_in(duration: std::time::Duration) -> u128;

/// Calls [`std::time::Duration::as_nanos`], which counts the nanoseconds a duration holds. The
/// claim is that the duration settles the count.
#[verifier::external_body]
fn whole_nanos(duration: &std::time::Duration) -> (nanos: u128)
    ensures
        nanos == nanos_in(*duration),
{
    duration.as_nanos()
}

/// Whether an instant is one the operating system's clock can have shown.
pub closed spec fn shown(at: std::time::Instant) -> bool {
    call_ensures(instant_now, (), at)
}

/// Reads a source of instants once.
fn read<F: Fn() -> std::time::Instant>(source: F) -> (at: std::time::Instant)
    requires
        call_requires(source, ()),
    ensures
        call_ensures(source, (), at),
{
    source()
}

/// What a clock reads once this many nanoseconds have passed since its origin.
///
/// Past the largest time there is, it stays there: centuries are beyond any process, but
/// that is still better than failing.
pub open spec fn reading_after(elapsed: u128) -> nat {
    if elapsed < u64::MAX {
        elapsed as nat
    } else {
        (u64::MAX - 1) as nat
    }
}

/// What a clock reads once this many nanoseconds have passed since its origin.
pub fn reading(elapsed: u128) -> (now: Timestamp)
    ensures
        now@ == reading_after(elapsed),
{
    let nanos: u64 = if elapsed < u64::MAX as u128 {
        elapsed as u64
    } else {
        u64::MAX - 1
    };
    match Timestamp::from_raw(nanos) {
        Some(now) => now,
        None => vstd::pervasive::unreached(),
    }
}

/// A clock over the operating system's monotonic one.
///
/// Cheap to clone, and clones share an origin.
#[derive(Clone, Copy, Debug)]
pub struct TokioClock {
    origin: std::time::Instant,
}

impl TokioClock {
    /// A clock whose origin is now.
    pub fn new() -> (clock: Self)
        ensures
            shown(clock.created()),
    {
        Self { origin: read(instant_now) }
    }

    /// When the clock was created.
    pub closed spec fn created(&self) -> std::time::Instant {
        self.origin
    }

    /// When the clock was created.
    pub fn origin(&self) -> (origin: std::time::Instant)
        ensures
            origin == self.created(),
    {
        self.origin
    }

    /// What the clock reads at an instant: the nanoseconds since its origin.
    pub fn at(&self, at: &std::time::Instant) -> (reads: Timestamp)
        ensures
            reads@ == reading_after(nanos_in(span(self.created(), *at))),
    {
        reading(whole_nanos(&since(at, self.origin)))
    }

    /// The current time, which is what the clock reads at the instant of the call. A later
    /// reading is never earlier: see [`law_a_reading_never_goes_backwards`].
    pub fn now(&self) -> (now: Timestamp)
        ensures
            exists|at: std::time::Instant| shown(at) && now@ == reading_after(
                nanos_in(#[trigger] span(self.created(), at)),
            ),
    {
        let at = read(instant_now);
        assert(shown(at));
        self.at(&at)
    }
}

/// A clock whose origin is now.
impl Default for TokioClock {
    fn default() -> (clock: Self)
        ensures
            shown(clock.created()),
    {
        Self::new()
    }
}

/// Readings never go backwards while the time elapsed does not.
pub proof fn law_a_reading_never_goes_backwards(earlier: u128, later: u128)
    requires
        earlier <= later,
    ensures
        reading_after(earlier) <= reading_after(later),
{
}

} // verus!
