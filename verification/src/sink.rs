//! What every sink offers to the producer of events.

use vstd::prelude::*;
use crate::event::{MyEvents, MyProgressEvents, ReportError};
use crate::progress::Progress;

verus! {

/// A sink for progress events and log lines.
///
/// A sink owns its counter and whatever it renders to. Each call is one
/// unit: it moves the counter and renders the new state before it returns.
/// The exclusive borrow keeps two calls on one sink from overlapping; a sink
/// that several threads feed is put behind a lock by its owner.
pub trait Reporter {
    /// The progress that the sink shows.
    spec fn visible(&self) -> Progress;

    /// Whether the sink shows log lines, rather than dropping them.
    spec fn shows_lines(&self) -> bool;

    /// Whether the sink leaves increments aside in its present state, as a
    /// bar does once it is finished. `Reset` and `Finish` are never left
    /// aside.
    spec fn ignores_increments(&self) -> bool;

    /// Whether the sink can take `event` in its present state. A sink that
    /// counts for itself cannot take an increment that carries its counter
    /// past the largest `u64`.
    spec fn ready_for(&self, event: MyProgressEvents) -> bool;

    /// Applies `event` to the sink's counter and renders the new state. An
    /// increment that the sink leaves aside changes nothing.
    ///
    /// The counter moves whether or not rendering succeeds: after a failure
    /// the counter is ahead of what the medium holds.
    fn send_progress(&mut self, event: MyProgressEvents) -> (r: Result<(), ReportError>)
        requires
            old(self).ready_for(event),
        ensures
            event is Inc && old(self).ignores_increments()
                ==> final(self).visible() == old(self).visible(),
            !(event is Inc && old(self).ignores_increments()) && old(self).visible().admits(event)
                ==> final(self).visible() == old(self).visible().after(event),
            final(self).visible().max == old(self).visible().max,
            final(self).shows_lines() == old(self).shows_lines(),
            event is Inc ==> final(self).ignores_increments() == old(self).ignores_increments(),
            event is Reset ==> !final(self).ignores_increments(),
    ;

    /// Shows one log line, or drops it where the sink shows none. The counter
    /// stays as it is.
    fn send_event(&mut self, event: MyEvents) -> (r: Result<(), ReportError>)
        ensures
            final(self).visible() == old(self).visible(),
            final(self).shows_lines() == old(self).shows_lines(),
            final(self).ignores_increments() == old(self).ignores_increments(),
            !old(self).shows_lines() ==> r is Ok,
    ;

    /// The progress that the sink shows.
    fn progress(&self) -> (p: Progress)
        ensures
            p == self.visible(),
    ;

    /// Tells whether `send_progress` may be called with `event` now.
    fn can_send(&self, event: MyProgressEvents) -> (b: bool)
        ensures
            b == self.ready_for(event),
            self.visible().admits(event) ==> b,
    ;

    /// Tells whether this sink shows log lines.
    fn supports_events(&self) -> (b: bool)
        ensures
            b == self.shows_lines(),
    ;
}

} // verus!
