//! Points in time and spans of time, both in whole nanoseconds.

use vstd::prelude::*;

verus! {

/// Nanoseconds in one second.
pub const NANOS_PER_SEC: u64 = 1_000_000_000;

/// A span of time in nanoseconds.
#[derive(Clone, Copy, Debug, PartialEq, Eq, Structural)]
pub struct Duration {
    pub nanos: u64,
}

/// A point in time: nanoseconds since an origin that the host chooses once
/// and keeps (typically the start of the program).
#[derive(Clone, Copy, Debug, PartialEq, Eq, Structural)]
pub struct Timestamp {
    pub nanos: u64,
}

impl Timestamp {
    /// Time that has passed at `self` since `earlier`; zero when `earlier`
    /// is not in the past.
    pub open spec fn spec_since(self, earlier: Timestamp) -> Duration {
        if self.nanos >= earlier.nanos {
            Duration { nanos: (self.nanos - earlier.nanos) as u64 }
        } else {
            Duration { nanos: 0 }
        }
    }

    /// The point `span` after `self`, held at the last representable
    /// nanosecond when the sum lies beyond it.
    pub open spec fn spec_after(self, span: Duration) -> Timestamp {
        if self.nanos + span.nanos <= u64::MAX {
            Timestamp { nanos: (self.nanos + span.nanos) as u64 }
        } else {
            Timestamp { nanos: u64::MAX }
        }
    }

    /// Time that has passed at `self` since `earlier`.
    #[verifier::when_used_as_spec(spec_since)]
    pub fn since(self, earlier: Timestamp) -> (span: Duration)
        ensures
            span == self.spec_since(earlier),
    {
        Duration { nanos: self.nanos.saturating_sub(earlier.nanos) }
    }

    /// The point `span` after `self`.
    #[verifier::when_used_as_spec(spec_after)]
    pub fn after(self, span: Duration) -> (later: Timestamp)
        ensures
            later == self.spec_after(span),
    {
        Timestamp { nanos: self.nanos.saturating_add(span.nanos) }
    }
}

} // verus!
