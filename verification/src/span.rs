//! Lengths of time as the protocol counts them.

use vstd::prelude::*;

verus! {

/// Nanoseconds in one second.
pub const NANOS_PER_SEC: u128 = 1_000_000_000;

/// A length of time in whole nanoseconds.
///
/// Every `std::time::Duration` fits: its largest value is below `2^94`
/// nanoseconds.
#[derive(Clone, Copy, Debug, PartialEq, Eq, Structural)]
pub struct Span {
    pub nanos: u128,
}

impl Span {
    /// The span of `secs` whole seconds.
    pub fn from_secs(secs: u64) -> (span: Span)
        ensures
            span.nanos == secs * NANOS_PER_SEC,
    {
        Span { nanos: secs as u128 * NANOS_PER_SEC }
    }

    /// The span of `nanos` nanoseconds.
    pub fn from_nanos(nanos: u128) -> (span: Span)
        ensures
            span.nanos == nanos,
    {
        Span { nanos }
    }

    /// Whether this span is strictly longer than `limit`.
    pub fn exceeds(&self, limit: Span) -> (longer: bool)
        ensures
            longer == (self.nanos > limit.nanos),
    {
        self.nanos > limit.nanos
    }
}

} // verus!
