//! A span of time with nanosecond precision, as `std::time::Duration` measures it:
//! whole seconds in a `u64` and the nanoseconds below one second.

use vstd::prelude::*;

verus! {

/// Nanoseconds in one second.
pub const NANOS_PER_SEC: u32 = 1_000_000_000;

/// Nanoseconds in one millisecond.
pub const NANOS_PER_MILLI: u32 = 1_000_000;

/// The longest span a `Duration` holds, in nanoseconds.
pub open spec fn max_nanos() -> nat {
    (u64::MAX as nat) * 1_000_000_000 + 999_999_999
}

/// A span of time; its view is the whole span in nanoseconds.
#[derive(Clone, Copy, Debug, PartialEq, Eq, Hash, PartialOrd, Ord)]
pub struct Duration {
    pub(crate) secs: u64,
    pub(crate) nanos: u32,
}

impl View for Duration {
    type V = nat;

    closed spec fn view(&self) -> nat {
        (self.secs as nat) * 1_000_000_000 + (self.nanos as nat)
    }
}

impl Duration {
    #[verifier::type_invariant]
    spec fn inv(self) -> bool {
        self.nanos < NANOS_PER_SEC
    }

    /// Builds `secs` seconds plus `nanos` nanoseconds; nanoseconds past a second carry into the seconds.
    pub fn new(secs: u64, nanos: u32) -> (d: Duration)
        requires
            secs + nanos / 1_000_000_000 <= u64::MAX,
        ensures
            d@ == secs * 1_000_000_000 + nanos,
    {
        let extra = nanos / NANOS_PER_SEC;
        let rest = nanos % NANOS_PER_SEC;
        Duration { secs: secs + extra as u64, nanos: rest }
    }

    /// The empty span.
    pub fn zero() -> (d: Duration)
        ensures
            d@ == 0,
    {
        Duration { secs: 0, nanos: 0 }
    }

    /// `secs` whole seconds.
    pub fn from_secs(secs: u64) -> (d: Duration)
        ensures
            d@ == secs * 1_000_000_000,
    {
        Duration { secs, nanos: 0 }
    }

    /// `millis` milliseconds.
    pub fn from_millis(millis: u64) -> (d: Duration)
        ensures
            d@ == millis * 1_000_000,
    {
        let secs = millis / 1000;
        let sub = millis % 1000;
        assert(sub * 1_000_000 < 1_000_000_000) by (nonlinear_arith)
            requires sub < 1000;
        let nanos: u32 = (sub as u32) * NANOS_PER_MILLI;
        assert(millis * 1_000_000 == secs * 1_000_000_000 + sub * 1_000_000) by (nonlinear_arith)
            requires secs == millis / 1000, sub == millis % 1000;
        Duration { secs, nanos }
    }

    /// Whether the span is empty.
    pub fn is_zero(&self) -> (z: bool)
        ensures
            z == (self@ == 0),
    {
        self.secs == 0 && self.nanos == 0
    }

    /// The whole seconds of the span.
    pub fn as_secs(&self) -> (s: u64)
        ensures
            s == self@ / 1_000_000_000,
    {
        proof { use_type_invariant(self); }
        self.secs
    }

    /// The nanoseconds past the last whole second.
    pub fn subsec_nanos(&self) -> (n: u32)
        ensures
            n == self@ % 1_000_000_000,
    {
        proof { use_type_invariant(self); }
        self.nanos
    }

    /// The whole milliseconds past the last whole second.
    pub fn subsec_millis(&self) -> (m: u32)
        ensures
            m == (self@ % 1_000_000_000) / 1_000_000,
            m < 1000,
    {
        proof { use_type_invariant(self); }
        self.nanos / NANOS_PER_MILLI
    }

    /// `self - other`, or `None` where `other` is the longer span.
    pub fn checked_sub(&self, other: Duration) -> (r: Option<Duration>)
        ensures
            r is None <==> self@ < other@,
            r matches Some(d) ==> d@ == self@ - other@,
    {
        proof {
            use_type_invariant(self);
            use_type_invariant(&other);
        }
        if self.secs < other.secs || (self.secs == other.secs && self.nanos < other.nanos) {
            None
        } else if self.nanos >= other.nanos {
            Some(Duration { secs: self.secs - other.secs, nanos: self.nanos - other.nanos })
        } else {
            Some(
                Duration {
                    secs: self.secs - other.secs - 1,
                    nanos: self.nanos + NANOS_PER_SEC - other.nanos,
                },
            )
        }
    }

    /// `self + other`, or `None` where the sum is longer than `max_nanos()`.
    pub fn checked_add(&self, other: Duration) -> (r: Option<Duration>)
        ensures
            r is None <==> self@ + other@ > max_nanos(),
            r matches Some(d) ==> d@ == self@ + other@,
    {
        proof {
            use_type_invariant(self);
            use_type_invariant(&other);
        }
        let nanos_sum = self.nanos + other.nanos;
        let carry: u64 = if nanos_sum >= NANOS_PER_SEC { 1 } else { 0 };
        let nanos = if nanos_sum >= NANOS_PER_SEC { nanos_sum - NANOS_PER_SEC } else { nanos_sum };
        if self.secs > u64::MAX - other.secs || self.secs + other.secs > u64::MAX - carry {
            None
        } else {
            Some(Duration { secs: self.secs + other.secs + carry, nanos })
        }
    }
}

} // verus!
