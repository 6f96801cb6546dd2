//! Lengths of time.

use vstd::prelude::*;

verus! {

/// A length of time in seconds and nanoseconds.
#[derive(Debug, Clone, Copy, PartialEq, Eq, Structural)]
pub struct Span {
    /// Whole seconds.
    pub secs: u64,
    /// The rest, below one second.
    pub nanos: u32,
}

impl Span {
    /// The length in milliseconds, rounded down.
    pub open spec fn millis(self) -> int {
        self.secs * 1000 + self.nanos / 1_000_000
    }

    /// `secs` seconds.
    pub fn from_secs(secs: u64) -> (span: Span)
        ensures
            span == (Span { secs, nanos: 0 }),
    {
        Span { secs, nanos: 0 }
    }

    /// `millis` milliseconds.
    pub fn from_millis(millis: u64) -> (span: Span)
        ensures
            span.millis() == millis,
            span.nanos < 1_000_000_000,
            span.nanos % 1_000_000 == 0,
    {
        Span { secs: millis / 1000, nanos: (millis % 1000) as u32 * 1_000_000 }
    }
}

} // verus!
