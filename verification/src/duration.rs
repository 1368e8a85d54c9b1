//! Spans of time that are never negative.

use vstd::prelude::*;

verus! {

/// How many nanoseconds make a second.
pub const NANOS_PER_SEC: u128 = 1_000_000_000;

/// The longest span that a [`Duration`] can hold, in nanoseconds: as many whole
/// seconds as a `u64` counts, and just less than one second more.
pub const MAX_NANOS: u128 = 18_446_744_073_709_551_615_999_999_999;

/// A span of time, counted in nanoseconds.
///
/// It covers the same spans as `std::time::Duration`. Its view is the number of
/// nanoseconds.
#[derive(Debug, Clone, Copy, PartialEq, Eq, Structural)]
pub struct Duration {
    nanos: u128,
}

impl View for Duration {
    type V = nat;

    closed spec fn view(&self) -> nat {
        self.nanos as nat
    }
}

impl Duration {
    #[verifier::type_invariant]
    spec fn in_bounds(self) -> bool {
        self.nanos <= MAX_NANOS
    }

    /// The span of `secs` seconds and `nanos` nanoseconds. As many as
    /// `u32::MAX` nanoseconds are accepted; those over a second are carried.
    pub fn new(secs: u64, nanos: u32) -> (d: Self)
        requires
            secs * NANOS_PER_SEC + nanos <= MAX_NANOS,
        ensures
            d@ == secs * NANOS_PER_SEC + nanos,
    {
        Duration { nanos: secs as u128 * NANOS_PER_SEC + nanos as u128 }
    }

    /// The span of `secs` whole seconds.
    pub fn from_secs(secs: u64) -> (d: Self)
        ensures
            d@ == secs * NANOS_PER_SEC,
    {
        Duration::new(secs, 0)
    }

    /// The span of `nanos` nanoseconds.
    pub(crate) fn from_nanos(nanos: u128) -> (d: Self)
        requires
            nanos <= MAX_NANOS,
        ensures
            d@ == nanos,
    {
        Duration { nanos }
    }

    /// The span in nanoseconds.
    pub fn as_nanos(&self) -> (n: u128)
        ensures
            n == self@,
            n <= MAX_NANOS,
    {
        proof {
            use_type_invariant(self);
        }
        self.nanos
    }

    /// The whole seconds of the span.
    pub fn as_secs(&self) -> (n: u64)
        ensures
            n == self@ / NANOS_PER_SEC as nat,
    {
        proof {
            use_type_invariant(self);
        }
        (self.nanos / NANOS_PER_SEC) as u64
    }

    /// The nanoseconds of the span that are left over its whole seconds.
    pub fn subsec_nanos(&self) -> (n: u32)
        ensures
            n == self@ % NANOS_PER_SEC as nat,
    {
        (self.nanos % NANOS_PER_SEC) as u32
    }
}

} // verus!
