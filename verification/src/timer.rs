//! The recenter timer.
//!
//! The event source reports mouse motion only while it occurs; that the
//! mouse has stopped must be inferred by timeout. The session arms a
//! single-shot deadline of [`RECENTER_INTERVAL_MS`] on every motion event,
//! and when the deadline fires with no motion since arming, the right stick
//! snaps back to center. A motion event arriving before the deadline simply
//! re-arms it to a later time, which cancels the pending recentering.
//!
//! The deadline itself is registered with the outside event source; this
//! component only tracks whether one is pending, so that a stale expiry
//! notification (one delivered when nothing is armed) recenters nothing.

use vstd::prelude::*;

verus! {

/// How long after the last motion event the stick recenters, in
/// milliseconds.
pub const RECENTER_INTERVAL_MS: u64 = 20;

/// The recenter timer's state: `armed` when a deadline is pending.
#[derive(Clone, Copy, Debug, PartialEq, Eq, Structural)]
pub struct RecenterTimer {
    /// Whether a recenter deadline is currently pending.
    pub armed: bool,
}

impl RecenterTimer {
    /// A fresh timer: idle, with no deadline pending.
    pub fn new() -> (r: RecenterTimer)
        ensures
            !r.armed,
    {
        RecenterTimer { armed: false }
    }

    /// A motion event arms the timer (or re-arms it, pushing the deadline
    /// back), whatever state it was in.
    pub fn on_motion(&mut self)
        ensures
            final(self).armed,
    {
        self.armed = true;
    }

    /// A deadline expiry: returns whether the recentering must fire, which
    /// it does exactly when the timer was armed. The timer is idle
    /// afterwards either way, so one armed deadline fires at most once.
    pub fn on_expiry(&mut self) -> (fire: bool)
        ensures
            fire == old(self).armed,
            !final(self).armed,
    {
        let fire = self.armed;
        self.armed = false;
        fire
    }
}

} // verus!
