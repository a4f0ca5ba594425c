//! Time values the library computes with: monotonic instants, spans of
//! time with nanosecond resolution, and local wall-clock minutes.
//!
//! `Duration` covers exactly the range of `std::time::Duration`
//! (`u64` seconds plus sub-second nanoseconds). `Instant` counts
//! nanoseconds from an origin chosen by the caller, such as the start of
//! the process.
use vstd::prelude::*;

verus! {

pub const NANOS_PER_SEC: u128 = 1_000_000_000;

/// Nanoseconds in the largest representable `Duration` (`u64::MAX`
/// seconds and 999 999 999 nanoseconds).
pub const MAX_NANOS: u128 = 18_446_744_073_709_551_615_999_999_999;

/// A span of time.
#[derive(Clone, Copy, Debug, PartialEq, Eq, Structural)]
pub struct Duration {
    nanos: u128,
}

impl View for Duration {
    type V = nat;

    /// The span in nanoseconds.
    closed spec fn view(&self) -> nat {
        self.nanos as nat
    }
}

impl Duration {
    #[verifier::type_invariant]
    spec fn in_range(self) -> bool {
        self.nanos <= MAX_NANOS
    }

    /// The empty span.
    pub fn zero() -> (d: Duration)
        ensures
            d@ == 0,
    {
        Duration { nanos: 0 }
    }

    /// `secs` whole seconds.
    pub fn from_secs(secs: u64) -> (d: Duration)
        ensures
            d@ == secs * NANOS_PER_SEC,
    {
        Duration { nanos: secs as u128 * NANOS_PER_SEC }
    }

    /// `millis` milliseconds.
    pub fn from_millis(millis: u64) -> (d: Duration)
        ensures
            d@ == millis * 1_000_000,
    {
        Duration { nanos: millis as u128 * 1_000_000 }
    }

    /// `secs` seconds and `nanos` nanoseconds, as `std::time::Duration::new`
    /// builds it: whole seconds in `nanos` carry over into the seconds,
    /// which must then still fit in a `u64`.
    pub fn new(secs: u64, nanos: u32) -> (d: Duration)
        requires
            secs * NANOS_PER_SEC + nanos <= MAX_NANOS,
        ensures
            d@ == secs * NANOS_PER_SEC + nanos,
    {
        Duration { nanos: secs as u128 * NANOS_PER_SEC + nanos as u128 }
    }

    /// Whole seconds in the span.
    pub fn as_secs(&self) -> (s: u64)
        ensures
            s == self@ / (NANOS_PER_SEC as nat),
    {
        proof {
            use_type_invariant(self);
        }
        (self.nanos / NANOS_PER_SEC) as u64
    }

    /// Nanoseconds beyond the whole seconds.
    pub fn subsec_nanos(&self) -> (n: u32)
        ensures
            n == self@ % (NANOS_PER_SEC as nat),
    {
        (self.nanos % NANOS_PER_SEC) as u32
    }

    /// The span in nanoseconds.
    pub fn as_nanos(&self) -> (n: u128)
        ensures
            n == self@,
            n <= MAX_NANOS,
    {
        proof {
            use_type_invariant(self);
        }
        self.nanos
    }

    /// `self * factor`, or the largest span when that does not fit.
    pub fn saturating_mul(self, factor: u32) -> (d: Duration)
        ensures
            d@ == if self@ * factor <= MAX_NANOS {
                self@ * factor
            } else {
                MAX_NANOS as int
            },
    {
        proof {
            use_type_invariant(self);
            assert(self.nanos * (factor as u128) <= MAX_NANOS * 0xffff_ffff) by (nonlinear_arith)
                requires
                    self.nanos <= MAX_NANOS,
                    factor <= 0xffff_ffff,
            ;
        }
        let product = self.nanos * factor as u128;
        if product <= MAX_NANOS {
            Duration { nanos: product }
        } else {
            Duration { nanos: MAX_NANOS }
        }
    }

    /// `self + other`; the sum must be representable.
    pub fn plus(self, other: Duration) -> (d: Duration)
        requires
            self@ + other@ <= MAX_NANOS,
        ensures
            d@ == self@ + other@,
    {
        Duration { nanos: self.nanos + other.nanos }
    }

    /// The longer of the two spans.
    pub fn max(self, other: Duration) -> (d: Duration)
        ensures
            d@ == if self@ >= other@ {
                self@
            } else {
                other@
            },
    {
        if self.nanos >= other.nanos {
            self
        } else {
            other
        }
    }
}

/// A point on a monotonic clock, in nanoseconds from the caller's origin.
#[derive(Clone, Copy, Debug, PartialEq, Eq, Structural)]
pub struct Instant {
    nanos: u64,
}

impl View for Instant {
    type V = nat;

    /// Nanoseconds from the origin.
    closed spec fn view(&self) -> nat {
        self.nanos as nat
    }
}

impl Instant {
    /// The instant `nanos` nanoseconds after the origin.
    pub fn from_nanos(nanos: u64) -> (t: Instant)
        ensures
            t@ == nanos,
    {
        Instant { nanos }
    }

    /// Nanoseconds from the origin.
    pub fn as_nanos(&self) -> (n: u64)
        ensures
            n == self@,
    {
        self.nanos
    }

    /// Whether `self` is at or after `other`.
    pub fn at_or_after(&self, other: &Instant) -> (b: bool)
        ensures
            b == (self@ >= other@),
    {
        self.nanos >= other.nanos
    }

    /// The time elapsed from `earlier` to `self`, or `None` when `earlier`
    /// is later than `self`.
    pub fn checked_duration_since(&self, earlier: Instant) -> (d: Option<Duration>)
        ensures
            self@ >= earlier@ ==> d is Some && d.unwrap()@ == self@ - earlier@,
            self@ < earlier@ ==> d.is_none(),
    {
        if self.nanos >= earlier.nanos {
            Some(Duration { nanos: (self.nanos - earlier.nanos) as u128 })
        } else {
            None
        }
    }

    /// The instant `d` after `self`; it must be representable.
    pub fn plus(self, d: Duration) -> (t: Instant)
        requires
            self@ + d@ <= u64::MAX,
        ensures
            t@ == self@ + d@,
    {
        Instant { nanos: self.nanos + d.nanos as u64 }
    }
}

/// A calendar date.
#[derive(Clone, Copy, Debug, PartialEq, Eq, Structural)]
pub struct Date {
    pub year: i32,
    pub month: u32,
    pub day: u32,
}

/// A local wall-clock time to the minute, as a journal entry and the
/// daily counters see it.
#[derive(Clone, Copy, Debug, PartialEq, Eq, Structural)]
pub struct LocalTime {
    pub year: i32,
    pub month: u32,
    pub day: u32,
    pub hour: u32,
    pub minute: u32,
}

impl LocalTime {
    pub open spec fn spec_date(&self) -> Date {
        Date { year: self.year, month: self.month, day: self.day }
    }

    /// The calendar date of this time.
    #[verifier::when_used_as_spec(spec_date)]
    pub fn date(&self) -> (d: Date)
        ensures
            d == self.spec_date(),
    {
        Date { year: self.year, month: self.month, day: self.day }
    }
}

} // verus!
