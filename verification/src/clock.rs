use vstd::prelude::*;

verus! {

/// The largest timestamp the frame clock accepts, in milliseconds: far
/// beyond any process lifetime, it keeps tick scheduling free of overflow.
pub const MAX_TIME_MS: u64 = 0x4000_0000_0000_0000;

/// The longest accepted tick interval: one day in milliseconds.
pub const MAX_INTERVAL_MS: u64 = 86_400_000;

/// The frame clock: a fixed-rate ticker independent of the frame rate,
/// gating how often the render loop polls the edit queue. It fires at
/// time zero and then once per interval.
#[derive(Clone, Copy, PartialEq, Eq, Structural, Debug)]
pub struct UpdateLoop {
    interval_ms: u64,
    next_ms: u64,
}

impl UpdateLoop {
    /// Milliseconds between ticks.
    pub closed spec fn interval(&self) -> u64 {
        self.interval_ms
    }

    /// The earliest timestamp at which the clock fires next.
    pub closed spec fn next(&self) -> u64 {
        self.next_ms
    }

    /// The interval is in range and the schedule cannot overflow.
    pub open spec fn wf(&self) -> bool {
        &&& 1 <= self.interval() <= MAX_INTERVAL_MS
        &&& self.next() <= MAX_TIME_MS + MAX_INTERVAL_MS
    }

    /// A clock that first fires at time zero and then every `interval_ms`.
    pub fn new(interval_ms: u64) -> (r: UpdateLoop)
        requires
            1 <= interval_ms <= MAX_INTERVAL_MS,
        ensures
            r.interval() == interval_ms,
            r.next() == 0,
            r.wf(),
    {
        UpdateLoop { interval_ms, next_ms: 0 }
    }

    /// One per-frame check: fires exactly when `now_ms` has reached the
    /// scheduled tick, and then schedules the next tick one interval later.
    pub fn update(&mut self, now_ms: u64) -> (ticked: bool)
        requires
            old(self).wf(),
            now_ms <= MAX_TIME_MS,
        ensures
            final(self).wf(),
            final(self).interval() == old(self).interval(),
            ticked == (now_ms >= old(self).next()),
            ticked ==> final(self).next() == now_ms + old(self).interval(),
            !ticked ==> *final(self) == *old(self),
    {
        if now_ms >= self.next_ms {
            self.next_ms = now_ms + self.interval_ms;
            true
        } else {
            false
        }
    }
}

} // verus!
