//! The sink that shows progress to a person at a terminal.

use vstd::prelude::*;
use crate::bar::{
    advance_bar, bar_finished, bar_length, bar_position, finish_bar, finished_of, length_of,
    new_bar, position_of, print_above, reset_bar, start_ticking,
};
use crate::event::{MyEvents, MyProgressEvents, ReportError};
use crate::progress::Progress;
use crate::sink::Reporter;

verus! {

/// Where a bar stands in its life.
///
/// A bar is created and set ticking in one step, so the first phase anyone
/// sees is `Running`; `Finish` makes it `Finished`, and only `Reset` reopens
/// it.
#[derive(Debug, Clone, Copy, PartialEq, Eq, Structural)]
pub enum Phase {
    /// The bar is redrawn on every event and on every tick.
    Running,
    /// The bar was brought to its end and is left on screen.
    Finished,
}

impl Phase {
    /// The phase after `event`. An increment leaves the phase alone: a
    /// running bar keeps running, and a finished bar stays finished.
    pub open spec fn after(self, event: MyProgressEvents) -> Phase {
        match event {
            MyProgressEvents::Reset => Phase::Running,
            MyProgressEvents::Inc { value } => self,
            MyProgressEvents::Finish => Phase::Finished,
        }
    }
}

/// A sink that drives a ticking progress bar of one hundred units and prints
/// log lines above it.
///
/// Once the bar is finished an increment is a no-op: position and phase stay
/// as `Finish` left them until a `Reset` reopens the bar.
pub struct HumanReporter {
    progress: indicatif::ProgressBar,
}

impl HumanReporter {
    /// The phase of the bar.
    pub closed spec fn stage(&self) -> Phase {
        if bar_finished(self.progress) {
            Phase::Finished
        } else {
            Phase::Running
        }
    }

    /// A running bar at zero of one hundred, redrawn five times a second
    /// whether or not events arrive.
    pub fn new() -> (s: Self)
        ensures
            s.visible() == Progress::start(100),
            s.stage() == Phase::Running,
    {
        let bar = new_bar(100);
        start_ticking(&bar, 200);
        HumanReporter { progress: bar }
    }

    /// The phase of the bar.
    pub fn phase(&self) -> (p: Phase)
        ensures
            p == self.stage(),
    {
        if finished_of(&self.progress) {
            Phase::Finished
        } else {
            Phase::Running
        }
    }
}

impl Reporter for HumanReporter {
    closed spec fn visible(&self) -> Progress {
        Progress { current: bar_position(self.progress), max: bar_length(self.progress) }
    }

    open spec fn shows_lines(&self) -> bool {
        true
    }

    open spec fn ignores_increments(&self) -> bool {
        self.stage() == Phase::Finished
    }

    open spec fn ready_for(&self, event: MyProgressEvents) -> bool {
        true
    }

    /// Moves the bar and redraws it. This never fails: the bar swallows
    /// errors of the terminal.
    ///
    /// An increment on a finished bar is a no-op. On a running bar, an
    /// increment that would carry the position past the largest `u64` leaves
    /// it there, as the bar itself does.
    fn send_progress(&mut self, event: MyProgressEvents) -> (r: Result<(), ReportError>)
        ensures
            r is Ok,
            final(self).stage() == old(self).stage().after(event),
            old(self).stage() == Phase::Finished && event is Inc
                ==> final(self).visible() == old(self).visible()
                && final(self).stage() == Phase::Finished,
            old(self).stage() == Phase::Running && !old(self).visible().admits(event)
                ==> final(self).visible().current == u64::MAX,
    {
        match event {
            MyProgressEvents::Reset => reset_bar(&mut self.progress),
            MyProgressEvents::Inc { value } => {
                if !finished_of(&self.progress) {
                    advance_bar(&mut self.progress, value);
                }
            },
            MyProgressEvents::Finish => finish_bar(&mut self.progress),
        }
        Ok(())
    }

    /// Prints the line above the bar. Position and phase stay as they are.
    fn send_event(&mut self, event: MyEvents) -> (r: Result<(), ReportError>)
        ensures
            r is Ok,
            final(self).stage() == old(self).stage(),
    {
        match event {
            MyEvents::WriteLine(msg) => print_above(&self.progress, msg.as_str()),
        }
        Ok(())
    }

    fn progress(&self) -> (p: Progress) {
        Progress { current: position_of(&self.progress), max: length_of(&self.progress) }
    }

    fn can_send(&self, event: MyProgressEvents) -> (b: bool) {
        true
    }

    fn supports_events(&self) -> (b: bool) {
        true
    }
}

/// `Reset` followed by `Finish` leaves a bar in the phase that `Finish` alone
/// leaves it in, and neither event is one that a finished bar leaves aside.
pub proof fn lemma_phase_reset_then_finish(phase: Phase)
    ensures
        phase.after(MyProgressEvents::Reset).after(MyProgressEvents::Finish) == phase.after(
            MyProgressEvents::Finish,
        ),
        phase.after(MyProgressEvents::Finish) == Phase::Finished,
{
}

} // verus!
