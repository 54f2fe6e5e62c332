//! The hardware-watchdog deadline as the supervisor tracks it.
//!
//! The watchdog peripheral itself lives outside this crate: it resets the
//! system unconditionally when `timeout` elapses without a feed.  This model
//! records when it was started and last fed, so that the supervision loop can
//! be held to the invariant that a feed always arrives in time.

use vstd::prelude::*;

verus! {

/// The deadline the hardware watchdog enforces: it must be fed within
/// `timeout` of `last_fed_at`, at all times, or the system resets.
#[derive(Clone, Copy, PartialEq, Eq, Structural, Debug)]
pub struct WatchdogDeadline {
    /// Fixed at configuration time; microseconds.
    pub timeout: u64,
    /// Clock instant of the most recent feed; microseconds.
    pub last_fed_at: u64,
}

impl WatchdogDeadline {
    /// The system is alive at `now` exactly when the deadline has not lapsed.
    pub open spec fn alive(self, now: u64) -> bool {
        now - self.last_fed_at < self.timeout
    }

    /// Start the watchdog and perform the first feed immediately, so the full
    /// window is available before the supervisor task first runs.
    pub fn start(timeout: u64, now: u64) -> (w: WatchdogDeadline)
        requires
            timeout >= 1,
        ensures
            w.timeout == timeout,
            w.last_fed_at == now,
            w.alive(now),
    {
        WatchdogDeadline { timeout, last_fed_at: now }
    }

    /// Refresh the deadline: the window restarts at `now`.
    pub fn feed(&mut self, now: u64)
        requires
            old(self).timeout >= 1,
            old(self).last_fed_at <= now,
        ensures
            final(self).timeout == old(self).timeout,
            final(self).last_fed_at == now,
            final(self).alive(now),
    {
        self.last_fed_at = now;
    }
}

} // verus!
