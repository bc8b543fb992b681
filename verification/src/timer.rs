//! A monotonic elapsed-time tracker.
//!
//! Real time is measured outside the core; each simulation tick hands the
//! milliseconds that passed since the previous tick to [`Timer::advance`].
//! While a timer is running its elapsed reading only increases; stopping
//! freezes the reading, and restarting resets it to zero.

use vstd::prelude::*;

verus! {

/// Saturating addition on `u64`, used so that a timer left running forever
/// cannot overflow.
pub open spec fn spec_saturating_add_u64(a: u64, b: u64) -> u64 {
    if a + b <= u64::MAX {
        (a + b) as u64
    } else {
        u64::MAX
    }
}

/// Tracks the passage of time handed in from outside, in milliseconds.
#[derive(Clone, Copy, Debug)]
pub struct Timer {
    pub elapsed_ms: u64,
    pub running: bool,
}

impl Timer {
    /// A timer that is not yet running and reads zero.
    pub fn new() -> (t: Timer)
        ensures
            t.elapsed_ms == 0,
            !t.running,
    {
        Timer { elapsed_ms: 0, running: false }
    }

    /// A timer that starts running immediately.
    pub fn start_new() -> (t: Timer)
        ensures
            t.elapsed_ms == 0,
            t.running,
    {
        Timer { elapsed_ms: 0, running: true }
    }

    /// Starts measuring from zero.
    pub fn start(&mut self)
        ensures
            final(self).elapsed_ms == 0,
            final(self).running,
    {
        self.elapsed_ms = 0;
        self.running = true;
    }

    /// Freezes the elapsed reading and marks the timer as not running.
    pub fn stop(&mut self)
        ensures
            final(self).elapsed_ms == old(self).elapsed_ms,
            !final(self).running,
    {
        self.running = false;
    }

    /// Resets the elapsed reading to zero and keeps the timer running.
    pub fn restart(&mut self)
        ensures
            final(self).elapsed_ms == 0,
            final(self).running,
    {
        self.elapsed_ms = 0;
        self.running = true;
    }

    /// The elapsed reading in milliseconds.
    pub fn elapsed_millis(&self) -> (ms: u64)
        ensures
            ms == self.elapsed_ms,
    {
        self.elapsed_ms
    }

    /// Whether the timer is currently running.
    pub fn is_running(&self) -> (r: bool)
        ensures
            r == self.running,
    {
        self.running
    }

    /// Accounts for `dt` milliseconds of real time. Only a running timer
    /// accumulates; the reading saturates rather than wrap.
    pub fn advance(&mut self, dt: u64)
        ensures
            final(self).running == old(self).running,
            final(self).elapsed_ms == if old(self).running {
                spec_saturating_add_u64(old(self).elapsed_ms, dt)
            } else {
                old(self).elapsed_ms
            },
    {
        if self.running {
            if dt <= u64::MAX - self.elapsed_ms {
                self.elapsed_ms = self.elapsed_ms + dt;
            } else {
                self.elapsed_ms = u64::MAX;
            }
        }
    }
}

} // verus!
