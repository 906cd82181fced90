//! Wire adaptation: maps batches, invalidations, heartbeats and internal
//! failures to the responses a client sees.

use vstd::prelude::*;

use crate::block::{encode, encodes};
use crate::message::Batch;
use crate::session::FinalityTier;

verus! {

/// The payload of one wire response.
#[derive(Clone, Debug, PartialEq, Eq)]
pub enum ResponseBody {
    /// A flushed batch of block data.
    Data {
        /// Cursor of the first block in the batch.
        start_cursor: crate::block::Cursor,
        /// Cursor of the last block in the batch.
        end_cursor: crate::block::Cursor,
        /// Finality tier of the carried data.
        finality: FinalityTier,
        /// The batched payloads, in arrival order.
        values: Vec<Vec<u8>>,
    },
    /// Blocks above `cursor_height` are no longer valid.
    Invalidate { cursor_height: u64 },
    /// A synthetic liveness marker; carries no data and no cursor.
    Heartbeat,
}

/// One wire response: the client's stream tag plus the payload.
#[derive(Clone, Debug, PartialEq, Eq)]
pub struct StreamDataResponse {
    pub stream_id: u64,
    pub body: ResponseBody,
}

/// One item of the adapted session pipeline, as the host polls it.
#[derive(Clone, Debug, PartialEq, Eq)]
pub enum StreamItem {
    /// The heartbeat layer found the sequence idle.
    HeartbeatDue,
    /// A real response produced by the pipeline.
    Item { response: StreamDataResponse },
    /// The pipeline failed fatally.
    Failed,
}

/// Maps a flushed batch to its data response: the tag, the cursors of the
/// batch's first and last block, the finality tier and the payloads in
/// arrival order.
pub fn batch_response(stream_id: u64, batch: &Batch, finality: FinalityTier) -> (r:
    StreamDataResponse)
    requires
        batch.wf(),
    ensures
        r.stream_id == stream_id,
        r.body matches ResponseBody::Data { start_cursor, end_cursor, finality: f, values } && {
            &&& encodes(batch.start_cursor_spec(), start_cursor)
            &&& encodes(batch.end_cursor_spec(), end_cursor)
            &&& f == finality
            &&& values@.len() == batch.items@.len()
            &&& forall|i: int|
                0 <= i < values@.len() ==> (#[trigger] values@[i])@ == batch.items@[i].payload@
        },
{
    let mut values: Vec<Vec<u8>> = Vec::new();
    let mut i: usize = 0;
    while i < batch.items.len()
        invariant
            i <= batch.items@.len(),
            values@.len() == i,
            forall|j: int|
                0 <= j < i ==> (#[trigger] values@[j])@ == batch.items@[j].payload@,
        decreases batch.items@.len() - i,
    {
        values.push(batch.items[i].payload.clone());
        i = i + 1;
    }
    let start_cursor = encode(batch.start_cursor());
    let end_cursor = encode(batch.end_cursor());
    StreamDataResponse {
        stream_id,
        body: ResponseBody::Data { start_cursor, end_cursor, finality, values },
    }
}

/// Maps an invalidation to its response, carrying the tag and the highest
/// height that is still valid.
pub fn invalidate_response(stream_id: u64, cursor_height: u64) -> (r: StreamDataResponse)
    ensures
        r.stream_id == stream_id,
        r.body == (ResponseBody::Invalidate { cursor_height }),
{
    StreamDataResponse { stream_id, body: ResponseBody::Invalidate { cursor_height } }
}

/// Maps a heartbeat to its response. Heartbeats carry the reserved tag 0,
/// never a real stream tag, and no cursor, so they cannot displace the
/// client's last-observed cursor.
pub fn heartbeat_response() -> (r: StreamDataResponse)
    ensures
        r.stream_id == 0,
        r.body == ResponseBody::Heartbeat,
{
    StreamDataResponse { stream_id: 0, body: ResponseBody::Heartbeat }
}

/// The one message a client sees of any internal failure.
pub fn mk_internal_error() -> (r: &'static str)
    ensures
        r@ == "internal server error"@,
{
    "internal server error"
}

/// Maps an internal failure to the client-visible error. The cause is for
/// the host's diagnostics only: whatever it says, the client sees the
/// same generic message, so no internal detail leaks.
pub fn internal_error(_cause: &str) -> (r: &'static str)
    ensures
        r@ == "internal server error"@,
{
    mk_internal_error()
}

/// Adapts one polled pipeline item to what is sent: heartbeats become the
/// reserved tag-0 heartbeat response, real responses pass through
/// untouched, and a pipeline failure becomes the generic internal error.
pub fn adapt_stream_item(item: StreamItem) -> (r: Result<StreamDataResponse, &'static str>)
    ensures
        item == StreamItem::HeartbeatDue ==> (r matches Ok(resp) && resp.stream_id == 0
            && resp.body == ResponseBody::Heartbeat),
        item matches StreamItem::Item { response } ==> (r matches Ok(resp) && resp == response),
        item == StreamItem::Failed ==> (r matches Err(m) && m@ == "internal server error"@),
{
    match item {
        StreamItem::HeartbeatDue => Ok(heartbeat_response()),
        StreamItem::Item { response } => Ok(response),
        StreamItem::Failed => Err(mk_internal_error()),
    }
}

} // verus!
