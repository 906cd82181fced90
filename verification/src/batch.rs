//! The batching layer: groups consecutive data messages into batches
//! bounded by item count or elapsed time, whichever bound is reached
//! first.
//!
//! The host owns the clock. Every call takes the current time in
//! milliseconds; the window is measured from the pending batch's first
//! item, not aligned to any fixed grid. An invalidation or the end of the
//! upstream sequence flushes the pending batch immediately, so no
//! buffered item is ever discarded.

use vstd::prelude::*;

use crate::message::{Batch, BlockData};

verus! {

/// The batch window's state.
///
/// The host must not write these fields; they are public so that callers
/// can reason about the machine, and are only changed by the methods
/// below.
#[derive(Debug)]
pub struct BatchWindow {
    /// Flush as soon as this many items are pending. At least 1.
    pub batch_size: usize,
    /// Flush a non-empty pending batch this many milliseconds after its
    /// first item arrived.
    pub window_ms: u64,
    /// The items accumulated so far, in arrival order.
    pub pending: Vec<BlockData>,
    /// Arrival time of the first pending item; meaningful only while
    /// `pending` is non-empty.
    pub window_start_ms: u64,
}

impl BatchWindow {
    /// Well-formedness: a positive count bound, never reached by the
    /// pending items (reaching it flushes at once).
    pub open spec fn wf(self) -> bool {
        &&& self.batch_size >= 1
        &&& self.pending@.len() < self.batch_size
    }

    /// The host's clock never runs backwards past the pending window's
    /// start.
    pub open spec fn clock_ok(self, now_ms: u64) -> bool {
        self.pending@.len() > 0 ==> now_ms >= self.window_start_ms
    }

    pub fn new(batch_size: usize, window_ms: u64) -> (w: Self)
        requires
            batch_size >= 1,
        ensures
            w.wf(),
            w.batch_size == batch_size,
            w.window_ms == window_ms,
            w.pending@.len() == 0,
    {
        BatchWindow { batch_size, window_ms, pending: Vec::new(), window_start_ms: 0 }
    }

    /// Empties the pending items into a batch stamped with the time
    /// elapsed since the window opened.
    fn take_pending(&mut self, now_ms: u64) -> (b: Batch)
        requires
            old(self).pending@.len() > 0,
            old(self).clock_ok(now_ms),
        ensures
            final(self).pending@.len() == 0,
            final(self).batch_size == old(self).batch_size,
            final(self).window_ms == old(self).window_ms,
            b.items@ == old(self).pending@,
            b.elapsed_ms == now_ms - old(self).window_start_ms,
            b.wf(),
    {
        let mut items: Vec<BlockData> = Vec::new();
        core::mem::swap(&mut items, &mut self.pending);
        Batch { items, elapsed_ms: now_ms - self.window_start_ms }
    }

    /// Accepts the next data message. Opens the window at `now_ms` when
    /// the batch was empty; flushes exactly when the pending batch
    /// reaches the count bound. The flushed batch holds the items in
    /// arrival order, the new message last.
    pub fn on_data(&mut self, block: BlockData, now_ms: u64) -> (out: Option<Batch>)
        requires
            old(self).wf(),
            old(self).clock_ok(now_ms),
        ensures
            final(self).wf(),
            final(self).batch_size == old(self).batch_size,
            final(self).window_ms == old(self).window_ms,
            old(self).pending@.len() + 1 == old(self).batch_size ==> (out matches Some(b)
                && b.items@ == old(self).pending@.push(block) && final(self).pending@.len() == 0),
            old(self).pending@.len() + 1 < old(self).batch_size ==> (out is None && final(self).pending@ == old(self).pending@.push(block) && final(self).window_start_ms == (
            if old(self).pending@.len() == 0 {
                now_ms
            } else {
                old(self).window_start_ms
            })),
    {
        if self.pending.len() == 0 {
            self.window_start_ms = now_ms;
        }
        self.pending.push(block);
        if self.pending.len() == self.batch_size {
            Some(self.take_pending(now_ms))
        } else {
            None
        }
    }

    /// Acts on the batch timer: flushes the pending batch exactly when it
    /// is non-empty and the configured window has elapsed since its first
    /// item arrived.
    pub fn on_timer(&mut self, now_ms: u64) -> (out: Option<Batch>)
        requires
            old(self).wf(),
            old(self).clock_ok(now_ms),
        ensures
            final(self).wf(),
            final(self).batch_size == old(self).batch_size,
            final(self).window_ms == old(self).window_ms,
            if old(self).pending@.len() > 0 && now_ms - old(self).window_start_ms >= old(self).window_ms {
                out matches Some(b) && b.items@ == old(self).pending@ && b.elapsed_ms == now_ms
                    - old(self).window_start_ms && final(self).pending@.len() == 0
            } else {
                out is None && final(self).pending@ == old(self).pending@ && final(self).window_start_ms == old(self).window_start_ms
            },
    {
        if self.pending.len() > 0 && now_ms - self.window_start_ms >= self.window_ms {
            Some(self.take_pending(now_ms))
        } else {
            None
        }
    }

    /// Flushes whatever is pending, below the bounds or not. Called when
    /// an invalidation arrives (the pending batch is emitted first, the
    /// invalidation alone right after it) and when the upstream sequence
    /// ends (no buffered item is discarded).
    pub fn flush_pending(&mut self, now_ms: u64) -> (out: Option<Batch>)
        requires
            old(self).wf(),
            old(self).clock_ok(now_ms),
        ensures
            final(self).wf(),
            final(self).batch_size == old(self).batch_size,
            final(self).window_ms == old(self).window_ms,
            final(self).pending@.len() == 0,
            old(self).pending@.len() > 0 ==> (out matches Some(b) && b.items@ == old(self).pending@),
            old(self).pending@.len() == 0 ==> out is None,
    {
        if self.pending.len() > 0 {
            Some(self.take_pending(now_ms))
        } else {
            None
        }
    }
}

} // verus!
