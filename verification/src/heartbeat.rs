//! The heartbeat layer: a liveness marker for otherwise idle sequences.
//!
//! The wrapper never holds, delays or reorders real items — the host
//! forwards those untouched and only reports their arrival here. It only
//! decides, from the host's clock, when an idle interval has passed and
//! exactly one synthetic heartbeat is due. It never ends the sequence.

use vstd::prelude::*;

verus! {

/// The heartbeat timer's state.
///
/// The host must not write these fields; they are public so that callers
/// can reason about the machine, and are only changed by the methods
/// below.
#[derive(Debug)]
pub struct HeartbeatWrapper {
    /// Idle interval after which a heartbeat is due.
    pub interval_ms: u64,
    /// Time of the last real item or heartbeat.
    pub last_activity_ms: u64,
}

impl HeartbeatWrapper {
    /// The host's clock never runs backwards past the last activity.
    pub open spec fn clock_ok(self, now_ms: u64) -> bool {
        now_ms >= self.last_activity_ms
    }

    pub fn new(interval_ms: u64, now_ms: u64) -> (h: Self)
        ensures
            h.interval_ms == interval_ms,
            h.last_activity_ms == now_ms,
    {
        HeartbeatWrapper { interval_ms, last_activity_ms: now_ms }
    }

    /// A real item was produced at `now_ms`; it resets the idle timer.
    pub fn note_item(&mut self, now_ms: u64)
        requires
            old(self).clock_ok(now_ms),
        ensures
            final(self).interval_ms == old(self).interval_ms,
            final(self).last_activity_ms == now_ms,
    {
        self.last_activity_ms = now_ms;
    }

    /// Acts on the idle timer: a heartbeat is due exactly when the idle
    /// interval has elapsed since the last activity, and emitting it
    /// resets the timer, so one idle interval yields one heartbeat.
    pub fn on_tick(&mut self, now_ms: u64) -> (due: bool)
        requires
            old(self).clock_ok(now_ms),
        ensures
            final(self).interval_ms == old(self).interval_ms,
            due == (now_ms - old(self).last_activity_ms >= old(self).interval_ms),
            due ==> final(self).last_activity_ms == now_ms,
            !due ==> final(self).last_activity_ms == old(self).last_activity_ms,
    {
        if now_ms - self.last_activity_ms >= self.interval_ms {
            self.last_activity_ms = now_ms;
            true
        } else {
            false
        }
    }
}

} // verus!
