use vstd::prelude::*;

verus! {

/// Nanoseconds in one second.
pub const NANOS_PER_SEC: u128 = 1_000_000_000;

/// Nanoseconds in one millisecond.
pub const NANOS_PER_MILLI: u128 = 1_000_000;

/// The largest number of nanoseconds a `Duration` can hold:
/// `u64::MAX` whole seconds plus 999_999_999 nanoseconds.
pub const MAX_NANOS: u128 = 18_446_744_073_709_551_615_999_999_999;

/// A span of time with nanosecond precision, holding at most
/// `u64::MAX` seconds and 999_999_999 nanoseconds.
#[derive(Clone, Copy, Debug, PartialEq, Eq, Structural)]
pub struct Duration {
    nanos: u128,
}

impl View for Duration {
    type V = nat;

    /// The length of the span in nanoseconds.
    closed spec fn view(&self) -> nat {
        self.nanos as nat
    }
}

impl Duration {
    /// Values of this type never exceed the largest span.
    #[verifier::type_invariant]
    spec fn wf(self) -> bool {
        self.nanos <= MAX_NANOS
    }

    /// The empty span.
    pub fn zero() -> (d: Duration)
        ensures
            d@ == 0,
    {
        Duration { nanos: 0 }
    }

    /// A span of `secs` whole seconds.
    pub fn from_secs(secs: u64) -> (d: Duration)
        ensures
            d@ == secs * 1_000_000_000,
    {
        Duration { nanos: (secs as u128) * NANOS_PER_SEC }
    }

    /// A span of `millis` milliseconds.
    pub fn from_millis(millis: u64) -> (d: Duration)
        ensures
            d@ == millis * 1_000_000,
    {
        Duration { nanos: (millis as u128) * NANOS_PER_MILLI }
    }

    /// A span of `nanos` nanoseconds.
    pub fn from_nanos(nanos: u64) -> (d: Duration)
        ensures
            d@ == nanos,
    {
        Duration { nanos: nanos as u128 }
    }

    /// A span of `secs` seconds and `nanos` nanoseconds, where the nanoseconds
    /// below one second are added to the seconds.
    pub fn new(secs: u64, nanos: u32) -> (d: Duration)
        requires
            secs * 1_000_000_000 + nanos <= MAX_NANOS,
        ensures
            d@ == secs * 1_000_000_000 + nanos,
    {
        Duration { nanos: (secs as u128) * NANOS_PER_SEC + nanos as u128 }
    }

    /// The whole milliseconds in the span.
    pub fn as_millis(&self) -> (m: u128)
        ensures
            m == self@ / 1_000_000,
    {
        self.nanos / NANOS_PER_MILLI
    }

    /// The whole seconds in the span.
    pub fn as_secs(&self) -> (s: u64)
        ensures
            s == self@ / 1_000_000_000,
    {
        proof { use_type_invariant(self); }
        (self.nanos / NANOS_PER_SEC) as u64
    }

    /// The span in nanoseconds.
    pub fn as_nanos(&self) -> (n: u128)
        ensures
            n == self@,
    {
        self.nanos
    }

    /// The nanoseconds beyond the whole seconds.
    pub fn subsec_nanos(&self) -> (n: u32)
        ensures
            n == self@ % 1_000_000_000,
    {
        (self.nanos % NANOS_PER_SEC) as u32
    }

    /// The sum of two spans, or `None` where it exceeds the largest span.
    pub fn checked_add(&self, other: Duration) -> (r: Option<Duration>)
        ensures
            self@ + other@ <= MAX_NANOS ==> r is Some && r.unwrap()@ == self@ + other@,
            self@ + other@ > MAX_NANOS ==> r is None,
    {
        proof { use_type_invariant(self); use_type_invariant(&other); }
        if self.nanos <= MAX_NANOS - other.nanos {
            Some(Duration { nanos: self.nanos + other.nanos })
        } else {
            None
        }
    }

    /// The sum of two spans that together fit in a `Duration`.
    pub fn plus(&self, other: Duration) -> (r: Duration)
        requires
            self@ + other@ <= MAX_NANOS,
        ensures
            r@ == self@ + other@,
    {
        Duration { nanos: self.nanos + other.nanos }
    }

    /// The difference of two spans, or the empty span where `other` is longer.
    pub fn saturating_sub(&self, other: Duration) -> (r: Duration)
        ensures
            r@ == if self@ >= other@ { self@ - other@ } else { 0 },
    {
        proof { use_type_invariant(self); }
        if self.nanos >= other.nanos {
            Duration { nanos: self.nanos - other.nanos }
        } else {
            Duration { nanos: 0 }
        }
    }

    /// Whether this span is shorter than `other`.
    pub fn lt(&self, other: &Duration) -> (b: bool)
        ensures
            b == (self@ < other@),
    {
        self.nanos < other.nanos
    }
}

} // verus!
