//! The flush trigger: when a batch must be cut.
//!
//! Two triggers work side by side and either is enough. The capacity trigger
//! looks at how full the buffer is; the time trigger looks at how long ago
//! the last flush ended.

use vstd::prelude::*;

verus! {

/// The capacity trigger: fires once the buffer holds `capacity` units.
pub open spec fn capacity_trigger(length: nat, capacity: nat) -> bool {
    length >= capacity
}

/// The time trigger: fires once `interval` has passed since `last_flush`.
pub open spec fn time_trigger(last_flush: nat, interval: nat, now: nat) -> bool {
    now >= last_flush + interval
}

/// How long the time trigger still waits at `now`; zero once it fires.
pub open spec fn time_left(last_flush: nat, interval: nat, now: nat) -> nat {
    if time_trigger(last_flush, interval, now) {
        0
    } else {
        (last_flush + interval - now) as nat
    }
}

/// A wait as it fits the clock's type: cut to the largest value where it
/// is longer.
pub open spec fn capped(wait: nat) -> nat {
    if wait <= u64::MAX {
        wait
    } else {
        u64::MAX as nat
    }
}

/// The clock behind the time trigger. All times are in milliseconds on one
/// clock that the caller reads.
pub struct FlushClock {
    interval: u64,
    last_flush: u64,
}

impl FlushClock {
    /// The flush interval.
    pub closed spec fn spec_interval(&self) -> nat {
        self.interval as nat
    }

    /// When the last flush ended.
    pub closed spec fn spec_last_flush(&self) -> nat {
        self.last_flush as nat
    }

    /// A clock for the given interval, started at time zero.
    pub fn new(interval: u64) -> (clock: Self)
        ensures
            clock.spec_interval() == interval,
            clock.spec_last_flush() == 0,
    {
        FlushClock { interval, last_flush: 0 }
    }

    /// The flush interval.
    pub fn interval(&self) -> (interval: u64)
        ensures
            interval == self.spec_interval(),
    {
        self.interval
    }

    /// When the last flush ended.
    pub fn last_flush(&self) -> (last_flush: u64)
        ensures
            last_flush == self.spec_last_flush(),
    {
        self.last_flush
    }

    /// Whether the time trigger fires at `now`.
    pub fn due(&self, now: u64) -> (due: bool)
        ensures
            due == time_trigger(self.spec_last_flush(), self.spec_interval(), now as nat),
    {
        now >= self.last_flush && now - self.last_flush >= self.interval
    }

    /// How long to wait from `now` until the time trigger fires; zero where
    /// it fires already. A wait that does not fit the type is cut to the
    /// largest value.
    pub fn remaining(&self, now: u64) -> (wait: u64)
        ensures
            wait == capped(time_left(self.spec_last_flush(), self.spec_interval(), now as nat)),
    {
        if now >= self.last_flush {
            let elapsed: u64 = now - self.last_flush;
            if elapsed >= self.interval {
                0
            } else {
                self.interval - elapsed
            }
        } else {
            let ahead: u64 = self.last_flush - now;
            if ahead <= u64::MAX - self.interval {
                self.interval + ahead
            } else {
                u64::MAX
            }
        }
    }

    /// Restarts the interval at `now`.
    pub fn reset(&mut self, now: u64)
        ensures
            final(self).spec_interval() == old(self).spec_interval(),
            final(self).spec_last_flush() == now,
    {
        self.last_flush = now;
    }
}

} // verus!
