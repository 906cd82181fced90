//! Messages produced by the block sequence and batches produced by the
//! batching layer.

use vstd::prelude::*;

use crate::block::BlockId;

verus! {

/// One block's worth of filtered data, identified by its cursor.
#[derive(Clone, Debug, PartialEq, Eq)]
pub struct BlockData {
    /// Identity of the block the payload was derived from.
    pub cursor: BlockId,
    /// The block's filtered payload, as the storage backend produced it.
    pub payload: Vec<u8>,
}

/// A message of the ordered block sequence.
#[derive(Clone, Debug, PartialEq, Eq)]
pub enum Message {
    /// One block's filtered data, in height order.
    Data { block: BlockData },
    /// All previously emitted blocks above `cursor_height` are no longer
    /// part of the chain; `cursor_height` is the highest height that is
    /// still valid.
    Invalidate { cursor_height: u64 },
}

/// An accumulated, ordered group of data messages flushed as one response
/// unit, together with its window metadata.
#[derive(Clone, Debug, PartialEq, Eq)]
pub struct Batch {
    /// The batched items, in arrival order. Never empty.
    pub items: Vec<BlockData>,
    /// Milliseconds between the batch's first item and its flush.
    pub elapsed_ms: u64,
}

impl Batch {
    /// A batch is well formed when it holds at least one item.
    pub open spec fn wf(self) -> bool {
        self.items@.len() >= 1
    }

    /// The cursor of the first data message the batch contains.
    pub open spec fn start_cursor_spec(self) -> BlockId
        recommends
            self.wf(),
    {
        self.items@.first().cursor
    }

    /// The cursor of the last data message the batch contains.
    pub open spec fn end_cursor_spec(self) -> BlockId
        recommends
            self.wf(),
    {
        self.items@.last().cursor
    }

    /// Number of items in the batch.
    pub fn item_count(&self) -> (n: usize)
        ensures
            n == self.items@.len(),
    {
        self.items.len()
    }

    /// The cursor of the first item.
    pub fn start_cursor(&self) -> (c: &BlockId)
        requires
            self.wf(),
        ensures
            *c == self.start_cursor_spec(),
    {
        &self.items[0].cursor
    }

    /// The cursor of the last item; a batch always ends at the cursor of
    /// the last data message it contains.
    pub fn end_cursor(&self) -> (c: &BlockId)
        requires
            self.wf(),
        ensures
            *c == self.end_cursor_spec(),
    {
        &self.items[self.items.len() - 1].cursor
    }
}

} // verus!
