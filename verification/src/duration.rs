//! Non-negative time spans with nanosecond resolution.

use vstd::prelude::*;

verus! {

/// Number of nanoseconds in one second.
pub const NANOS_PER_SEC: u64 = 1_000_000_000;

/// Number of nanoseconds in one millisecond.
pub const NANOS_PER_MILLI: u64 = 1_000_000;

/// A non-negative span of time, held as a whole number of nanoseconds.
///
/// All time accounting in this crate is exact integer arithmetic on
/// nanoseconds; the mathematical view of a `NetDuration` is its total length
/// in nanoseconds.
#[derive(Clone, Copy, Debug, PartialEq, Eq, Structural)]
pub struct NetDuration {
    nanos: u128,
}

impl View for NetDuration {
    type V = int;

    closed spec fn view(&self) -> int {
        self.nanos as int
    }
}

impl NetDuration {
    /// The span of exactly `nanos` nanoseconds.
    pub fn from_nanos(nanos: u128) -> (r: Self)
        ensures
            r@ == nanos,
    {
        NetDuration { nanos }
    }

    /// The span of exactly `millis` milliseconds.
    pub fn from_millis(millis: u64) -> (r: Self)
        ensures
            r@ == millis * NANOS_PER_MILLI,
    {
        proof {
            assert((millis as int) * (NANOS_PER_MILLI as int) <= (u64::MAX as int) * (
            NANOS_PER_MILLI as int)) by (nonlinear_arith)
                requires
                    millis <= u64::MAX,
            ;
        }
        NetDuration { nanos: (millis as u128) * (NANOS_PER_MILLI as u128) }
    }

    /// The span of exactly `secs` seconds.
    pub fn from_secs(secs: u64) -> (r: Self)
        ensures
            r@ == secs * NANOS_PER_SEC,
    {
        proof {
            assert((secs as int) * (NANOS_PER_SEC as int) <= (u64::MAX as int) * (
            NANOS_PER_SEC as int)) by (nonlinear_arith)
                requires
                    secs <= u64::MAX,
            ;
        }
        NetDuration { nanos: (secs as u128) * (NANOS_PER_SEC as u128) }
    }

    /// Total length in nanoseconds.
    pub fn as_nanos(&self) -> (r: u128)
        ensures
            r == self@,
    {
        self.nanos
    }

    /// The span divided by `divisor`, rounded down to whole nanoseconds.
    pub fn div_by(self, divisor: u32) -> (r: Self)
        requires
            1 <= divisor,
        ensures
            r@ == self@ / divisor as int,
    {
        NetDuration { nanos: self.nanos / (divisor as u128) }
    }
}

} // verus!
