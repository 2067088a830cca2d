//! The pace of the event source: how long it may wait for input, and when
//! a tick is due.

use vstd::prelude::*;

verus! {

/// The time since the last tick, on a clock that counts milliseconds.
pub open spec fn elapsed(last_tick_ms: u64, now_ms: u64) -> int {
    if now_ms >= last_tick_ms {
        now_ms - last_tick_ms
    } else {
        0
    }
}

/// The pace of the event source.
#[derive(Debug, Clone, Copy)]
pub struct EventHandler {
    tick_rate: u64,
    last_tick_ms: u64,
}

impl EventHandler {
    /// The time between two ticks, in milliseconds.
    pub closed spec fn rate(self) -> u64 {
        self.tick_rate
    }

    /// The time of the last tick.
    pub closed spec fn last_tick(self) -> u64 {
        self.last_tick_ms
    }

    /// An event source that ticks every `tick_rate` milliseconds, started at
    /// `now_ms`.
    pub fn new(tick_rate: u64, now_ms: u64) -> (handler: Self)
        ensures
            handler.rate() == tick_rate,
            handler.last_tick() == now_ms,
    {
        EventHandler { tick_rate, last_tick_ms: now_ms }
    }

    /// How long the source may wait for input at `now_ms`, in milliseconds:
    /// what is left of the tick interval, and 0 once it is over.
    pub fn poll_timeout(&self, now_ms: u64) -> (timeout: u64)
        ensures
            timeout == if elapsed(self.last_tick(), now_ms) >= self.rate() {
                0
            } else {
                self.rate() - elapsed(self.last_tick(), now_ms)
            },
    {
        let passed = if now_ms >= self.last_tick_ms {
            now_ms - self.last_tick_ms
        } else {
            0
        };
        if passed >= self.tick_rate {
            0
        } else {
            self.tick_rate - passed
        }
    }

    /// Whether a tick is due at `now_ms`: when the tick interval has passed
    /// since the last one. A tick that is due is taken: the next interval
    /// begins at `now_ms`.
    pub fn take_tick(&mut self, now_ms: u64) -> (due: bool)
        ensures
            due == (elapsed(old(self).last_tick(), now_ms) >= old(self).rate()),
            final(self).rate() == old(self).rate(),
            final(self).last_tick() == if due {
                now_ms
            } else {
                old(self).last_tick()
            },
    {
        let passed = if now_ms >= self.last_tick_ms {
            now_ms - self.last_tick_ms
        } else {
            0
        };
        if passed >= self.tick_rate {
            self.last_tick_ms = now_ms;
            true
        } else {
            false
        }
    }
}

} // verus!
