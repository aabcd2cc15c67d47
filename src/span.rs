//! A non-negative span of time with saturating arithmetic.

use vstd::prelude::*;

verus! {

/// Nanoseconds in one second.
pub const NANOS_PER_SEC: u128 = 1_000_000_000;

/// Nanoseconds in one millisecond.
pub const NANOS_PER_MILLI: u128 = 1_000_000;

/// The longest span that can be held: `u64::MAX` seconds and 999,999,999 nanoseconds.
pub const MAX_NANOS: u128 = 18_446_744_073_709_551_615_999_999_999;

/// Clamps an integer count of nanoseconds into the range a `TimeSpan` can hold.
pub open spec fn saturate(v: int) -> nat {
    if v < 0 {
        0
    } else if v > MAX_NANOS {
        MAX_NANOS as nat
    } else {
        v as nat
    }
}

/// A non-negative span of time, counted in nanoseconds.
///
/// Its view is the number of nanoseconds; it never exceeds `MAX_NANOS`.
#[derive(Clone, Copy, Debug, PartialEq, Eq, PartialOrd, Ord, Hash)]
pub struct TimeSpan {
    nanos: u128,
}

impl View for TimeSpan {
    type V = nat;

    closed spec fn view(&self) -> nat {
        self.nanos as nat
    }
}

impl TimeSpan {
    #[verifier::type_invariant]
    spec fn within_range(self) -> bool {
        self.nanos <= MAX_NANOS
    }

    /// The span of `secs` whole seconds and `nanos` further nanoseconds.
    pub fn new(secs: u64, nanos: u32) -> (r: TimeSpan)
        requires
            secs * NANOS_PER_SEC + nanos <= MAX_NANOS,
        ensures
            r@ == secs * NANOS_PER_SEC + nanos,
    {
        TimeSpan { nanos: secs as u128 * NANOS_PER_SEC + nanos as u128 }
    }

    /// The empty span.
    pub fn zero() -> (r: TimeSpan)
        ensures
            r@ == 0,
    {
        TimeSpan { nanos: 0 }
    }

    /// The span of `secs` whole seconds.
    pub fn from_secs(secs: u64) -> (r: TimeSpan)
        ensures
            r@ == secs * NANOS_PER_SEC,
    {
        TimeSpan { nanos: secs as u128 * NANOS_PER_SEC }
    }

    /// The span of `millis` milliseconds.
    pub fn from_millis(millis: u64) -> (r: TimeSpan)
        ensures
            r@ == millis * NANOS_PER_MILLI,
    {
        TimeSpan { nanos: millis as u128 * NANOS_PER_MILLI }
    }

    /// The whole span in nanoseconds.
    pub fn as_nanos(&self) -> (r: u128)
        ensures
            r == self@,
            r <= MAX_NANOS,
    {
        proof {
            use_type_invariant(self);
        }
        self.nanos
    }

    /// The number of whole seconds in the span.
    pub fn as_secs(&self) -> (r: u64)
        ensures
            r == self@ / (NANOS_PER_SEC as nat),
    {
        proof {
            use_type_invariant(self);
        }
        (self.nanos / NANOS_PER_SEC) as u64
    }

    /// The span multiplied by `rhs`, or the longest span where the product is longer.
    pub fn saturating_mul(self, rhs: u32) -> (r: TimeSpan)
        ensures
            r@ == saturate(self@ * rhs as int),
    {
        proof {
            use_type_invariant(self);
            assert(self.nanos * rhs <= MAX_NANOS * 0xffff_ffff) by (nonlinear_arith)
                requires
                    self.nanos <= MAX_NANOS,
                    rhs <= 0xffff_ffffu32,
            ;
        }
        let product: u128 = self.nanos * rhs as u128;
        if product > MAX_NANOS {
            TimeSpan { nanos: MAX_NANOS }
        } else {
            TimeSpan { nanos: product }
        }
    }

    /// The sum of two spans, or the longest span where the sum is longer.
    pub fn saturating_add(self, rhs: TimeSpan) -> (r: TimeSpan)
        ensures
            r@ == saturate(self@ + rhs@ as int),
    {
        proof {
            use_type_invariant(self);
            use_type_invariant(rhs);
        }
        let sum: u128 = self.nanos + rhs.nanos;
        if sum > MAX_NANOS {
            TimeSpan { nanos: MAX_NANOS }
        } else {
            TimeSpan { nanos: sum }
        }
    }

    /// The span less `rhs`, or the empty span where `rhs` is the longer one.
    pub fn saturating_sub(self, rhs: TimeSpan) -> (r: TimeSpan)
        ensures
            r@ == saturate(self@ - rhs@ as int),
    {
        proof {
            use_type_invariant(self);
        }
        if rhs.nanos > self.nanos {
            TimeSpan { nanos: 0 }
        } else {
            TimeSpan { nanos: self.nanos - rhs.nanos }
        }
    }

    /// The shorter of two spans.
    pub fn min(self, other: TimeSpan) -> (r: TimeSpan)
        ensures
            r@ == if self@ <= other@ {
                self@
            } else {
                other@
            },
    {
        if self.nanos <= other.nanos {
            self
        } else {
            other
        }
    }
}

} // verus!
