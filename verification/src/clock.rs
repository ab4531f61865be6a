//! The frame clock: a fixed-cadence render tick. The host sleeps until
//! `next_tick`; the clock only decides when a tick is due and where the
//! next one lands.

use vstd::prelude::*;

verus! {

/// The render cadence, in milliseconds per frame (about 60 frames a second).
pub const FRAME_PERIOD_MS: u64 = 1000 / 60;

/// A periodic ticker over millisecond timestamps.
pub struct FrameClock {
    pub period: u64,
    pub next_tick: u64,
}

impl FrameClock {
    pub open spec fn wf(self) -> bool {
        self.period >= 1
    }

    /// Whether a render tick is due at time `now`.
    pub open spec fn is_due(self, now: u64) -> bool {
        now >= self.next_tick
    }

    /// A clock whose first tick is due immediately.
    pub fn new(now: u64, period: u64) -> (c: Self)
        requires
            period >= 1,
        ensures
            c.wf(),
            c.period == period,
            c.next_tick == now,
            c.is_due(now),
    {
        FrameClock { period, next_tick: now }
    }

    /// The runtime check for `is_due`.
    pub fn due(&self, now: u64) -> (b: bool)
        ensures
            b == self.is_due(now),
    {
        now >= self.next_tick
    }

    /// Consumes the due tick at time `now`; the next one lands a full
    /// period later.
    pub fn advance(&mut self, now: u64)
        requires
            old(self).wf(),
            old(self).is_due(now),
            now + old(self).period <= u64::MAX,
        ensures
            final(self).wf(),
            final(self).period == old(self).period,
            final(self).next_tick == now + old(self).period,
            forall|t: u64| t < now + old(self).period ==> !final(self).is_due(t),
    {
        self.next_tick = now + self.period;
    }
}

} // verus!
