//! A watchdog over idle time.
//!
//! The monitor remembers when it last saw activity.  Whoever watches over it
//! sleeps until a deadline and then asks whether the time without activity
//! has reached the timeout.  Times are readings of a monotonic clock, and
//! the timeout is a span on that clock; the unit is the caller's choice.

use vstd::prelude::*;

verus! {

/// What the watcher of an [`ActivityMonitor`] does next.
#[derive(Clone, Copy, Debug, PartialEq, Eq, Structural)]
pub enum Watch {
    /// Sleep until the clock reads the time given, then ask again.
    SleepUntil(u64),
    /// There was no activity for the whole timeout: shut down.
    Shutdown,
}

/// Time between two readings of the clock; nothing if the clock ran
/// backwards.
pub open spec fn elapsed(since: u64, now: u64) -> int {
    if now >= since {
        now - since
    } else {
        0
    }
}

/// The reading `timeout` after `now`, or the last reading of the clock where
/// that lies beyond it.
pub open spec fn deadline_after(now: u64, timeout: u64) -> u64 {
    if now + timeout <= u64::MAX {
        (now + timeout) as u64
    } else {
        u64::MAX
    }
}

/// Simple watchdog.
#[derive(Clone, Copy, Debug, PartialEq, Eq, Structural)]
pub struct ActivityMonitor {
    /// The reading of the clock at the last activity.
    pub last_activity: u64,
    /// Time without activity after which the watcher shuts down.
    pub timeout_after: u64,
}

impl ActivityMonitor {
    /// A monitor that takes its making at `now` for the first activity.
    pub fn new(timeout_after: u64, now: u64) -> (monitor: ActivityMonitor)
        ensures
            monitor.timeout_after == timeout_after,
            monitor.last_activity == now,
    {
        ActivityMonitor { last_activity: now, timeout_after }
    }

    /// The reading of the clock at the last activity.
    pub fn get_last_activity(&self) -> (last: u64)
        ensures
            last == self.last_activity,
    {
        self.last_activity
    }

    /// Records activity at `now`.
    pub fn feed(&mut self, now: u64)
        ensures
            final(self).last_activity == now,
            final(self).timeout_after == old(self).timeout_after,
    {
        self.last_activity = now;
    }

    /// The deadline until which the watcher sleeps when it begins at `now`.
    pub fn deadline(&self, now: u64) -> (until: u64)
        ensures
            until == deadline_after(now, self.timeout_after),
    {
        if self.timeout_after <= u64::MAX - now {
            now + self.timeout_after
        } else {
            u64::MAX
        }
    }

    /// Decides, for a watcher that woke at `now`, whether to shut down: it
    /// does once the time since the last activity has reached the timeout,
    /// and sleeps for another timeout otherwise.
    pub fn watch_inactivity(&self, now: u64) -> (next: Watch)
        ensures
            elapsed(self.last_activity, now) >= self.timeout_after ==> next == Watch::Shutdown,
            elapsed(self.last_activity, now) < self.timeout_after ==> next == Watch::SleepUntil(
                deadline_after(now, self.timeout_after),
            ),
    {
        let idle = if now >= self.last_activity {
            now - self.last_activity
        } else {
            0
        };
        if idle >= self.timeout_after {
            // No activity, shutdown.
            Watch::Shutdown
        } else {
            Watch::SleepUntil(self.deadline(now))
        }
    }
}

} // verus!
