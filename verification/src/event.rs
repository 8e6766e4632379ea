//! The events a producer reports, and the one way a sink can fail.

use vstd::prelude::*;

verus! {

/// A change to the bounded counter that a sink shows.
#[derive(Debug, Clone, Copy, PartialEq, Eq, Structural)]
pub enum MyProgressEvents {
    /// Back to zero.
    Reset,
    /// Forward by `value`. The counter is not clamped to its maximum.
    Inc { value: u64 },
    /// Straight to the maximum.
    Finish,
}

/// A discrete message, independent of the counter.
#[derive(Debug)]
pub enum MyEvents {
    /// One human-readable line.
    WriteLine(String),
}

/// Why a sink could not report.
#[derive(Debug, Clone, Copy, PartialEq, Eq, Structural)]
pub enum ReportError {
    /// The medium behind the sink did not accept a write or a flush.
    SinkUnavailable,
}

impl ReportError {
    /// The text shown for this error.
    pub open spec fn text(self) -> Seq<char> {
        "yikes, err!"@
    }

    /// The text shown for this error, as an owned string.
    pub fn describe(&self) -> (s: String)
        ensures
            s@ == self.text(),
    {
        String::from_str("yikes, err!")
    }
}

} // verus!
