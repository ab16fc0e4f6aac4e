//! The beacon driver's timing state: when the next liveness beacon is
//! due, and how a configuration change re-arms the timer. The thread
//! that sleeps and the socket that sends live at the process edge.

use vstd::prelude::*;
use crate::types::sat_add;

verus! {

/// Beacon timing state. An interval of zero disables emission; any
/// other interval schedules a beacon every `interval_ms` milliseconds.
#[derive(Debug, Clone, Copy, PartialEq, Eq, Structural)]
pub struct Beacon {
    /// Milliseconds between beacons; 0 disables the driver
    pub interval_ms: u64,
    /// Instant, in milliseconds, at which the next beacon is due
    pub deadline_ms: u64,
}

impl Beacon {
    /// Whether the driver emits beacons at all.
    pub open spec fn enabled(self) -> bool {
        self.interval_ms != 0
    }

    /// Start the driver: the first beacon is due one interval from
    /// now. Whether one should also go out at startup is an operator
    /// choice; this driver waits one interval first, which keeps the
    /// cadence uniform from the start.
    pub fn new(interval_ms: u64, now_ms: u64) -> (r: Self)
        ensures
            r.interval_ms == interval_ms,
            r.deadline_ms == sat_add(now_ms, interval_ms),
    {
        Self { interval_ms, deadline_ms: now_ms.saturating_add(interval_ms) }
    }

    /// Change the cadence. A zero interval is the reserved "disable"
    /// value, so emission stops rather than being left unchanged; a
    /// positive interval takes effect at once: the next beacon is due
    /// now, and later beacons follow at the new cadence.
    pub fn set_interval(&mut self, interval_ms: u64, now_ms: u64)
        ensures
            final(self).interval_ms == interval_ms,
            interval_ms == 0 ==> !final(self).enabled(),
            interval_ms != 0 ==> final(self).enabled() && final(self).deadline_ms == now_ms,
    {
        self.interval_ms = interval_ms;
        if interval_ms != 0 {
            self.deadline_ms = now_ms;
        }
    }

    /// Whether a beacon is due: the driver is enabled and the deadline
    /// has passed.
    pub fn due(&self, now_ms: u64) -> (r: bool)
        ensures
            r == (self.enabled() && now_ms >= self.deadline_ms),
    {
        self.interval_ms != 0 && now_ms >= self.deadline_ms
    }

    /// Record that a beacon was just sent: the next one is due one
    /// interval from now.
    pub fn fire(&mut self, now_ms: u64)
        ensures
            final(self).interval_ms == old(self).interval_ms,
            final(self).deadline_ms == sat_add(now_ms, old(self).interval_ms),
    {
        self.deadline_ms = now_ms.saturating_add(self.interval_ms);
    }
}

/// A disabled driver is never due, and a later positive interval
/// re-enables it with an immediate beacon: after `set_interval(n, now)`
/// with `n` positive the driver is due at once.
pub proof fn lemma_beacon_reenable(b: Beacon, n: u64, now: u64)
    ensures
        !(Beacon { interval_ms: 0, ..b }).enabled(),
        n != 0 ==> ({
            let armed = Beacon { interval_ms: n, deadline_ms: now };
            armed.enabled() && now >= armed.deadline_ms
        }),
{
}

} // verus!
