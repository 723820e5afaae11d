//! Durations and points in time, held as whole nanoseconds.
//!
//! The clock's own readings come from the standard library's monotonic
//! clock, measured from an origin taken when a [`Clock`] is made; every
//! decision about time is made on the plain nanosecond values.

use vstd::prelude::*;

verus! {

/// Nanoseconds in one second.
pub const NANOS_PER_SEC: u128 = 1_000_000_000;

/// Nanoseconds in one millisecond.
pub const NANOS_PER_MILLI: u128 = 1_000_000;

/// The largest span a [`Duration`] holds: `u64::MAX` whole seconds and
/// 999_999_999 nanoseconds, as for the standard library's durations.
pub const MAX_NANOS: u128 = 18_446_744_073_709_551_615_999_999_999;

/// A span of time with nanosecond precision.
#[derive(Clone, Copy, Debug, PartialEq, Eq, Structural, PartialOrd, Ord, Hash)]
pub struct Duration {
    nanos: u128,
}

impl View for Duration {
    type V = nat;

    /// The span in nanoseconds.
    closed spec fn view(&self) -> nat {
        self.nanos as nat
    }
}

impl Duration {
    #[verifier::type_invariant]
    pub(crate) closed spec fn within_range(self) -> bool {
        self.nanos <= MAX_NANOS
    }

    /// The empty span.
    pub fn zero() -> (d: Duration)
        ensures
            d@ == 0,
    {
        Duration { nanos: 0 }
    }

    /// A span of exactly `nanos` nanoseconds.
    pub fn from_nanos(nanos: u128) -> (d: Duration)
        requires
            nanos <= MAX_NANOS,
        ensures
            d@ == nanos,
    {
        Duration { nanos }
    }

    /// A span of `secs` whole seconds.
    pub fn from_secs(secs: u64) -> (d: Duration)
        ensures
            d@ == secs * NANOS_PER_SEC,
    {
        assert(secs * NANOS_PER_SEC <= MAX_NANOS) by (nonlinear_arith)
            requires
                secs <= u64::MAX,
        ;
        Duration { nanos: secs as u128 * NANOS_PER_SEC }
    }

    /// A span of `millis` milliseconds.
    pub fn from_millis(millis: u64) -> (d: Duration)
        ensures
            d@ == millis * NANOS_PER_MILLI,
    {
        assert(millis * NANOS_PER_MILLI <= MAX_NANOS) by (nonlinear_arith)
            requires
                millis <= u64::MAX,
        ;
        Duration { nanos: millis as u128 * NANOS_PER_MILLI }
    }

    /// The whole nanoseconds of the span.
    pub fn as_nanos(&self) -> (n: u128)
        ensures
            n == self@,
            n <= MAX_NANOS,
    {
        proof {
            use_type_invariant(self);
        }
        self.nanos
    }

    /// The whole milliseconds of the span, rounded down.
    pub fn as_millis(&self) -> (n: u128)
        ensures
            n == self@ / NANOS_PER_MILLI as nat,
    {
        self.nanos / NANOS_PER_MILLI
    }

    /// The whole seconds of the span, rounded down.
    pub fn as_secs(&self) -> (n: u64)
        ensures
            n == self@ / NANOS_PER_SEC as nat,
    {
        proof {
            use_type_invariant(self);
        }
        (self.nanos / NANOS_PER_SEC) as u64
    }

    /// The whole milliseconds of the part of the span below one second.
    pub fn subsec_millis(&self) -> (n: u32)
        ensures
            n == (self@ % NANOS_PER_SEC as nat) / NANOS_PER_MILLI as nat,
            n < 1000,
    {
        ((self.nanos % NANOS_PER_SEC) / NANOS_PER_MILLI) as u32
    }

    /// Whether the span is empty.
    pub fn is_zero(&self) -> (b: bool)
        ensures
            b == (self@ == 0),
    {
        self.nanos == 0
    }

    /// The sum of two spans, or `None` where it exceeds [`MAX_NANOS`].
    pub fn checked_add(self, other: Duration) -> (r: Option<Duration>)
        ensures
            match r {
                Some(d) => self@ + other@ <= MAX_NANOS && d@ == self@ + other@,
                None => self@ + other@ > MAX_NANOS,
            },
    {
        proof {
            use_type_invariant(&self);
            use_type_invariant(&other);
        }
        if self.nanos <= MAX_NANOS - other.nanos {
            Some(Duration { nanos: self.nanos + other.nanos })
        } else {
            None
        }
    }

    /// The difference of two spans, or the empty span where `other` is the
    /// longer one.
    pub fn saturating_sub(self, other: Duration) -> (d: Duration)
        ensures
            d@ == (if other@ <= self@ { self@ - other@ } else { 0 }),
    {
        proof {
            use_type_invariant(&self);
        }
        if other.nanos <= self.nanos {
            Duration { nanos: self.nanos - other.nanos }
        } else {
            Duration { nanos: 0 }
        }
    }

    /// Whether `self` is at most as long as `other`.
    pub fn le(&self, other: &Duration) -> (b: bool)
        ensures
            b == (self@ <= other@),
    {
        self.nanos <= other.nanos
    }
}

impl core::ops::Add for Duration {
    type Output = Duration;

    /// The sum of two spans; the sum must lie within [`MAX_NANOS`].
    fn add(self, rhs: Duration) -> (d: Duration) {
        Duration { nanos: self.nanos + rhs.nanos }
    }
}

impl vstd::std_specs::ops::AddSpecImpl for Duration {
    open spec fn obeys_add_spec() -> bool {
        true
    }

    open spec fn add_req(self, rhs: Duration) -> bool {
        self@ + rhs@ <= MAX_NANOS
    }

    closed spec fn add_spec(self, rhs: Duration) -> Duration {
        Duration { nanos: (self.nanos + rhs.nanos) as u128 }
    }
}

impl core::ops::Sub for Duration {
    type Output = Duration;

    /// The difference of two spans; `rhs` must not be the longer one.
    fn sub(self, rhs: Duration) -> (d: Duration) {
        proof {
            use_type_invariant(&self);
        }
        Duration { nanos: self.nanos - rhs.nanos }
    }
}

impl vstd::std_specs::ops::SubSpecImpl for Duration {
    open spec fn obeys_sub_spec() -> bool {
        true
    }

    open spec fn sub_req(self, rhs: Duration) -> bool {
        rhs@ <= self@
    }

    closed spec fn sub_spec(self, rhs: Duration) -> Duration {
        Duration { nanos: (self.nanos - rhs.nanos) as u128 }
    }
}

/// A point in time, held as the span since the origin of the [`Clock`]
/// that read it.
#[derive(Clone, Copy, Debug, PartialEq, Eq, Structural, PartialOrd, Ord, Hash)]
pub struct Instant {
    since_origin: Duration,
}

impl View for Instant {
    type V = nat;

    /// Nanoseconds since the clock's origin.
    closed spec fn view(&self) -> nat {
        self.since_origin@
    }
}

impl Instant {
    /// The point `since_origin` after the clock's origin.
    pub fn from_origin(since_origin: Duration) -> (t: Instant)
        ensures
            t@ == since_origin@,
    {
        Instant { since_origin }
    }

    /// The span from the clock's origin to this point.
    pub fn since_origin(&self) -> (d: Duration)
        ensures
            d@ == self@,
    {
        self.since_origin
    }

    /// The point `d` later, or `None` where it lies beyond [`MAX_NANOS`]
    /// after the origin.
    pub fn checked_add(self, d: Duration) -> (r: Option<Instant>)
        ensures
            match r {
                Some(t) => self@ + d@ <= MAX_NANOS && t@ == self@ + d@,
                None => self@ + d@ > MAX_NANOS,
            },
    {
        match self.since_origin.checked_add(d) {
            Some(s) => Some(Instant { since_origin: s }),
            None => None,
        }
    }

    /// The span from `earlier` to `self`, or the empty span where `earlier`
    /// is the later point.
    pub fn saturating_duration_since(self, earlier: Instant) -> (d: Duration)
        ensures
            d@ == sub_or_zero(self@, earlier@),
    {
        self.since_origin.saturating_sub(earlier.since_origin)
    }
}

/// `a - b`, or zero where `b` exceeds `a`.
pub open spec fn sub_or_zero(a: nat, b: nat) -> nat {
    if b <= a {
        (a - b) as nat
    } else {
        0
    }
}

/// The standard library's monotonic clock reading.
#[verifier::external_type_specification]
#[verifier::external_body]
pub struct ExStdInstant(std::time::Instant);

/// Reads the standard library's monotonic clock (`std::time::Instant::now`).
/// Nothing is claimed of the reading: it depends on the time of the call.
#[verifier::external_body]
fn std_instant_now() -> std::time::Instant {
    std::time::Instant::now()
}

/// The span since `origin` on the standard library's monotonic clock
/// (`Instant::elapsed`, which gives the empty span where the clock reads an
/// earlier point). Nothing is claimed of it: it depends on the time of the
/// call.
#[verifier::external_body]
fn std_elapsed(origin: &std::time::Instant) -> std::time::Duration {
    origin.elapsed()
}

/// The whole nanoseconds of a standard duration (`Duration::as_nanos`).
/// A standard duration holds at most `u64::MAX` seconds and 999_999_999
/// nanoseconds, so the count lies within `MAX_NANOS`; the count itself is
/// left unsaid, as the duration is opaque here.
#[verifier::external_body]
fn std_duration_nanos(d: &std::time::Duration) -> (n: u128)
    ensures
        n <= MAX_NANOS,
{
    d.as_nanos()
}

/// A monotonic clock whose readings are spans since the moment it was made.
#[derive(Clone, Copy)]
pub struct Clock {
    origin: std::time::Instant,
}

impl Clock {
    /// Whether `t`, in nanoseconds since the origin, is a reading of the
    /// clock: a point that [`now`](Self::now) returned. Outside this module
    /// the predicate is known only from the contract of `now`, so a
    /// contract that speaks of a point the clock `reads` speaks of a point
    /// that a call of `now` gave, not of a point made up by other means.
    pub closed spec fn reads(self, t: nat) -> bool {
        t <= MAX_NANOS
    }

    /// A clock whose origin is now.
    pub fn new() -> (c: Clock) {
        Clock { origin: std_instant_now() }
    }

    /// The current point in time on this clock; like every reading, it
    /// lies within [`MAX_NANOS`] of the origin.
    pub fn now(&self) -> (t: Instant)
        ensures
            t@ <= MAX_NANOS,
            self.reads(t@),
    {
        let n = std_duration_nanos(&std_elapsed(&self.origin));
        Instant { since_origin: Duration { nanos: n } }
    }
}

} // verus!
