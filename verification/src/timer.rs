//! Countdown timers that fire an action when they run out.
use vstd::prelude::*;
use crate::action::Action;

verus! {

/// A countdown of `duration` nanoseconds that fires `on_finish` when it reaches zero.
pub struct Timer {
    /// Length of the countdown, in nanoseconds.
    pub duration: u128,
    /// Time left, in nanoseconds.
    pub remaining: u128,
    pub on_finish: Action,
    pub enabled: bool,
}

impl Timer {
    /// A full countdown.
    pub fn new(duration: u128, on_finish: Action, enabled: bool) -> (t: Self)
        ensures
            t == (Timer { duration, remaining: duration, on_finish, enabled }),
    {
        Self { duration, remaining: duration, on_finish, enabled }
    }

    /// Counts down by `delta` nanoseconds, stopping at zero.
    pub fn tick(&mut self, delta: u128)
        ensures
            *final(self) == (Timer { remaining: old(self).remaining.saturating_sub(delta), ..*old(self) }),
    {
        self.remaining = self.remaining.saturating_sub(delta);
    }

    /// Whether the countdown has run out.
    pub fn is_finished(&self) -> (b: bool)
        ensures
            b == (self.remaining == 0),
    {
        self.remaining == 0
    }

    /// Starts the countdown over.
    pub fn reset(&mut self)
        ensures
            *final(self) == (Timer { remaining: old(self).duration, ..*old(self) }),
    {
        self.remaining = self.duration;
    }

    /// Turns the timer on and starts the countdown over.
    pub fn enable(&mut self)
        ensures
            *final(self) == (Timer { enabled: true, remaining: old(self).duration, ..*old(self) }),
    {
        self.enabled = true;
        self.reset();
    }

    /// Turns the timer off; the time left is kept.
    pub fn disable(&mut self)
        ensures
            *final(self) == (Timer { enabled: false, ..*old(self) }),
    {
        self.enabled = false;
    }
}

/// Two ticks count down as much as one tick of their sum.
pub proof fn lemma_ticks_add(remaining: u128, a: u128, b: u128)
    requires
        a + b <= u128::MAX,
    ensures
        remaining.saturating_sub(a).saturating_sub(b) == remaining.saturating_sub((a + b) as u128),
{
}

} // verus!
