//! The bounded counter behind every sink, and how events move it.

use vstd::prelude::*;
use crate::event::MyProgressEvents;

verus! {

/// A counter `current` measured against a fixed `max`.
///
/// `Reset` and `Finish` keep `current` within `0..=max`; increments are not
/// clamped, so `current` may run past `max` until the next `Reset` or
/// `Finish`.
#[derive(Debug, Clone, Copy, PartialEq, Eq, Structural)]
pub struct Progress {
    pub current: u64,
    pub max: u64,
}

impl Progress {
    /// A counter at zero.
    pub open spec fn start(max: u64) -> Progress {
        Progress { current: 0, max }
    }

    /// Whether `event` can be applied: an increment must not carry `current`
    /// past the largest `u64`.
    pub open spec fn admits(self, event: MyProgressEvents) -> bool {
        event matches MyProgressEvents::Inc { value } ==> self.current + value <= u64::MAX
    }

    /// The counter after `event`.
    pub open spec fn after(self, event: MyProgressEvents) -> Progress
        recommends
            self.admits(event),
    {
        match event {
            MyProgressEvents::Reset => Progress { current: 0, max: self.max },
            MyProgressEvents::Inc { value } => Progress {
                current: (self.current + value) as u64,
                max: self.max,
            },
            MyProgressEvents::Finish => Progress { current: self.max, max: self.max },
        }
    }

    /// A counter at zero, measured against `max`.
    pub fn new(max: u64) -> (p: Progress)
        ensures
            p == Progress::start(max),
    {
        Progress { current: 0, max }
    }

    /// Moves the counter forward by `by`, without clamping to `max`.
    pub fn inc(&mut self, by: u64)
        requires
            old(self).current + by <= u64::MAX,
        ensures
            final(self).current == old(self).current + by,
            final(self).max == old(self).max,
    {
        self.current = self.current + by;
    }

    /// Tells whether `event` can be applied to this counter.
    pub fn can_apply(&self, event: MyProgressEvents) -> (ok: bool)
        ensures
            ok == self.admits(event),
    {
        match event {
            MyProgressEvents::Inc { value } => value <= u64::MAX - self.current,
            _ => true,
        }
    }

    /// Applies `event` to the counter.
    pub fn apply(&mut self, event: MyProgressEvents)
        requires
            old(self).admits(event),
        ensures
            *final(self) == old(self).after(event),
    {
        match event {
            MyProgressEvents::Reset => {
                self.current = 0;
            },
            MyProgressEvents::Inc { value } => {
                self.inc(value);
            },
            MyProgressEvents::Finish => {
                self.current = self.max;
            },
        }
    }
}

/// `Finish` brings the counter to exactly `max`, wherever it stood.
pub proof fn lemma_finish_reaches_max(p: Progress)
    ensures
        p.admits(MyProgressEvents::Finish),
        p.after(MyProgressEvents::Finish).current == p.max,
        p.after(MyProgressEvents::Finish).max == p.max,
{
}

/// `Reset` followed by `Finish` ends in the same state as `Finish` alone.
pub proof fn lemma_reset_then_finish(p: Progress)
    ensures
        p.admits(MyProgressEvents::Reset),
        p.after(MyProgressEvents::Reset).admits(MyProgressEvents::Finish),
        p.after(MyProgressEvents::Reset).after(MyProgressEvents::Finish) == p.after(
            MyProgressEvents::Finish,
        ),
{
}

/// No event changes `max`.
pub proof fn lemma_max_is_fixed(p: Progress, event: MyProgressEvents)
    ensures
        p.after(event).max == p.max,
{
}

} // verus!
