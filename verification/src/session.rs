//! The session layer: validates a client's initial request, wires the
//! sequence, batching and heartbeat layers together, and adapts their
//! output to wire responses.
//!
//! Exactly one initial control message establishes the session
//! parameters. Control messages after the first are ignored; the host is
//! expected to log a warning (see
//! [`StreamSession::on_subsequent_request`]).

use vstd::prelude::*;

use crate::batch::BatchWindow;
use crate::block::{decode, encodes, BlockId, Cursor, BLOCK_HASH_LEN};
use crate::heartbeat::HeartbeatWrapper;
use crate::message::Message;
use crate::sequence::{ResumableBlockSequence, SequenceStep};
use crate::wire::{
    batch_response, heartbeat_response, invalidate_response, ResponseBody, StreamDataResponse,
};

verus! {

/// Smallest accepted batch size.
pub const MIN_BATCH_SIZE: u64 = 1;

/// Largest accepted batch size.
pub const MAX_BATCH_SIZE: u64 = 50;

/// Batch size used when the client names none.
pub const DEFAULT_BATCH_SIZE: u64 = 20;

/// Time bound of the batch window, in milliseconds.
pub const BATCH_WINDOW_MS: u64 = 250;

/// Idle interval after which a heartbeat is sent, in milliseconds.
pub const HEARTBEAT_INTERVAL_MS: u64 = 30000;

/// Wire code for an unknown finality tier.
pub const FINALITY_CODE_UNKNOWN: u32 = 0;

/// Wire code for the pending finality tier.
pub const FINALITY_CODE_PENDING: u32 = 1;

/// Wire code for the accepted finality tier.
pub const FINALITY_CODE_ACCEPTED: u32 = 2;

/// Wire code for the finalized finality tier.
pub const FINALITY_CODE_FINALIZED: u32 = 3;

/// How irreversible a block is. Only `Finalized` is served; the other
/// tiers are rejected at session start.
#[derive(Clone, Copy, Debug, PartialEq, Eq)]
pub enum FinalityTier {
    Pending,
    Accepted,
    Finalized,
}

impl FinalityTier {
    /// Maps a wire code to its tier; unknown codes map to nothing.
    pub fn from_code(code: u32) -> (t: Option<FinalityTier>)
        ensures
            code == FINALITY_CODE_PENDING ==> t == Some(FinalityTier::Pending),
            code == FINALITY_CODE_ACCEPTED ==> t == Some(FinalityTier::Accepted),
            code == FINALITY_CODE_FINALIZED ==> t == Some(FinalityTier::Finalized),
            code != FINALITY_CODE_PENDING && code != FINALITY_CODE_ACCEPTED && code
                != FINALITY_CODE_FINALIZED ==> t is None,
    {
        if code == FINALITY_CODE_PENDING {
            Some(FinalityTier::Pending)
        } else if code == FINALITY_CODE_ACCEPTED {
            Some(FinalityTier::Accepted)
        } else if code == FINALITY_CODE_FINALIZED {
            Some(FinalityTier::Finalized)
        } else {
            None
        }
    }
}

/// The initial client control message establishing a session.
#[derive(Clone, Debug, PartialEq, Eq)]
pub struct StreamDataRequest {
    /// Opaque filter handed to storage and ingestion; an absent filter is
    /// permissive (empty).
    pub filter: Option<Vec<u8>>,
    /// Requested batch size; defaulted and clamped.
    pub batch_size: Option<u64>,
    /// Where to resume; absent means genesis.
    pub starting_cursor: Option<Cursor>,
    /// The client's correlation tag; defaults to 0.
    pub stream_id: Option<u64>,
    /// Requested finality tier, as its wire code.
    pub finality: Option<u32>,
}

/// Rejections of a session request, decided before any pipeline is built.
#[derive(Clone, Copy, Debug, PartialEq, Eq)]
pub enum RequestError {
    /// The starting cursor could not be decoded.
    InvalidCursor,
    /// The pending tier was requested; it is deliberately not
    /// implemented.
    PendingNotImplemented,
    /// An unspecified, unknown or otherwise unserved finality tier was
    /// requested.
    UnsupportedFinality,
    /// Storage knows no finalized block to serve from.
    NoFinalizedData,
    /// The starting cursor names a height above the finalized tip.
    CursorBeyondTip,
}

/// The request's starting cursor is present and undecodable.
pub open spec fn cursor_rejected(req: StreamDataRequest) -> bool {
    match req.starting_cursor {
        Some(c) => c.hash@.len() != BLOCK_HASH_LEN,
        None => false,
    }
}

/// Why a request is rejected, or nothing when it is accepted. Checks run
/// in the transport layer's order: cursor encoding, then finality tier,
/// then the tip checks.
pub open spec fn request_rejection(req: StreamDataRequest, tip: Option<BlockId>) -> Option<
    RequestError,
> {
    if cursor_rejected(req) {
        Some(RequestError::InvalidCursor)
    } else if req.finality == Some(FINALITY_CODE_PENDING) {
        Some(RequestError::PendingNotImplemented)
    } else if req.finality != Some(FINALITY_CODE_FINALIZED) {
        Some(RequestError::UnsupportedFinality)
    } else {
        match tip {
            None => Some(RequestError::NoFinalizedData),
            Some(t) => match req.starting_cursor {
                Some(c) => if c.height > t.height {
                    Some(RequestError::CursorBeyondTip)
                } else {
                    None
                },
                None => None,
            },
        }
    }
}

/// The batch size a request gets: the client's choice or the default,
/// clamped into the accepted range.
pub open spec fn clamped_batch_size(requested: Option<u64>) -> u64 {
    let raw = match requested {
        Some(n) => n,
        None => DEFAULT_BATCH_SIZE,
    };
    if raw < MIN_BATCH_SIZE {
        MIN_BATCH_SIZE
    } else if raw > MAX_BATCH_SIZE {
        MAX_BATCH_SIZE
    } else {
        raw
    }
}

/// The stream tag a request gets.
pub open spec fn stream_tag_of(req: StreamDataRequest) -> u64 {
    match req.stream_id {
        Some(id) => id,
        None => 0,
    }
}

/// One client session's pipeline: sequence into batch window into
/// heartbeat, plus the session parameters fixed at validation.
#[derive(Debug)]
pub struct StreamSession {
    pub stream_id: u64,
    pub finality: FinalityTier,
    pub sequence: ResumableBlockSequence,
    pub batcher: BatchWindow,
    pub heartbeat: HeartbeatWrapper,
}

/// What to do with a control message received after the first.
#[derive(Clone, Copy, Debug, PartialEq, Eq)]
pub enum ControlPolicy {
    /// Keep the session as it is; the host logs a warning.
    IgnoreWithWarning,
    /// End the session.
    RejectSession,
}

impl StreamSession {
    /// Policy for control messages after the first: they are ignored with
    /// a warning and change nothing about the session (this method does
    /// not touch it).
    pub fn on_subsequent_request(&self, _request: &StreamDataRequest) -> (p: ControlPolicy)
        ensures
            p == ControlPolicy::IgnoreWithWarning,
    {
        ControlPolicy::IgnoreWithWarning
    }

    /// Routes one output of the block sequence through the batch window
    /// and adapts whatever flushes to wire responses, in emission order.
    ///
    /// Data is buffered until the count bound flushes it; an invalidation
    /// flushes the pending batch first and follows it alone, never merged
    /// into a data batch; the end of the sequence flushes what is pending
    /// so nothing buffered is lost; a fatal upstream failure produces no
    /// response here (the host sends the generic internal error). Every
    /// response produced resets the heartbeat's idle timer.
    pub fn on_sequence_step(&mut self, step: SequenceStep, now_ms: u64) -> (out: Vec<
        StreamDataResponse,
    >)
        requires
            old(self).batcher.wf(),
            old(self).batcher.clock_ok(now_ms),
            old(self).heartbeat.clock_ok(now_ms),
        ensures
            final(self).batcher.wf(),
            final(self).stream_id == old(self).stream_id,
            final(self).finality == old(self).finality,
            final(self).sequence == old(self).sequence,
            final(self).batcher.batch_size == old(self).batcher.batch_size,
            final(self).batcher.window_ms == old(self).batcher.window_ms,
            final(self).heartbeat.interval_ms == old(self).heartbeat.interval_ms,
            step matches SequenceStep::Emit { message: Message::Data { block } } ==> (
            if old(self).batcher.pending@.len() + 1 == old(self).batcher.batch_size {
                &&& out@.len() == 1
                &&& out@[0].stream_id == old(self).stream_id
                &&& (out@[0].body matches ResponseBody::Data {
                    start_cursor,
                    end_cursor,
                    finality,
                    values,
                } && {
                    &&& encodes(old(self).batcher.pending@.push(block).first().cursor, start_cursor)
                    &&& encodes(block.cursor, end_cursor)
                    &&& finality == old(self).finality
                    &&& values@.len() == old(self).batcher.pending@.len() + 1
                })
                &&& final(self).batcher.pending@.len() == 0
                &&& final(self).heartbeat.last_activity_ms == now_ms
            } else {
                &&& out@.len() == 0
                &&& final(self).batcher.pending@ == old(self).batcher.pending@.push(block)
                &&& final(self).heartbeat == old(self).heartbeat
            }),
            step matches SequenceStep::Emit { message: Message::Invalidate { cursor_height } }
                ==> {
                &&& final(self).batcher.pending@.len() == 0
                &&& final(self).heartbeat.last_activity_ms == now_ms
                &&& out@.last() == (StreamDataResponse {
                    stream_id: old(self).stream_id,
                    body: ResponseBody::Invalidate { cursor_height },
                })
                &&& if old(self).batcher.pending@.len() > 0 {
                    out@.len() == 2 && out@[0].stream_id == old(self).stream_id && (
                    out@[0].body matches ResponseBody::Data { end_cursor, values, .. } && encodes(
                        old(self).batcher.pending@.last().cursor,
                        end_cursor,
                    ) && values@.len() == old(self).batcher.pending@.len())
                } else {
                    out@.len() == 1
                }
            },
            step == SequenceStep::Quiet ==> out@.len() == 0 && final(self).batcher.pending@ == old(
                self,
            ).batcher.pending@ && final(self).heartbeat == old(self).heartbeat,
            step == SequenceStep::End ==> {
                &&& final(self).batcher.pending@.len() == 0
                &&& final(self).heartbeat == old(self).heartbeat
                &&& if old(self).batcher.pending@.len() > 0 {
                    out@.len() == 1 && out@[0].stream_id == old(self).stream_id && (
                    out@[0].body matches ResponseBody::Data { end_cursor, values, .. } && encodes(
                        old(self).batcher.pending@.last().cursor,
                        end_cursor,
                    ) && values@.len() == old(self).batcher.pending@.len())
                } else {
                    out@.len() == 0
                }
            },
            step == SequenceStep::Fatal ==> out@.len() == 0 && final(self).batcher.pending@ == old(
                self,
            ).batcher.pending@ && final(self).heartbeat == old(self).heartbeat,
    {
        match step {
            SequenceStep::Emit { message } => match message {
                Message::Data { block } => {
                    let flushed = self.batcher.on_data(block, now_ms);
                    match flushed {
                        Some(b) => {
                            self.heartbeat.note_item(now_ms);
                            let resp = batch_response(self.stream_id, &b, self.finality);
                            let mut out: Vec<StreamDataResponse> = Vec::new();
                            out.push(resp);
                            out
                        },
                        None => Vec::new(),
                    }
                },
                Message::Invalidate { cursor_height } => {
                    let mut out: Vec<StreamDataResponse> = Vec::new();
                    let flushed = self.batcher.flush_pending(now_ms);
                    match flushed {
                        Some(b) => {
                            out.push(batch_response(self.stream_id, &b, self.finality));
                        },
                        None => {},
                    }
                    out.push(invalidate_response(self.stream_id, cursor_height));
                    self.heartbeat.note_item(now_ms);
                    out
                },
            },
            SequenceStep::Quiet => Vec::new(),
            SequenceStep::End => {
                let mut out: Vec<StreamDataResponse> = Vec::new();
                match self.batcher.flush_pending(now_ms) {
                    Some(b) => {
                        out.push(batch_response(self.stream_id, &b, self.finality));
                    },
                    None => {},
                }
                out
            },
            SequenceStep::Fatal => Vec::new(),
        }
    }

    /// Acts on the batch timer: when the pending batch's window has
    /// elapsed it flushes, below the count bound or not, and goes out as
    /// a data response; resets the heartbeat's idle timer when it does.
    pub fn on_batch_timer(&mut self, now_ms: u64) -> (out: Option<StreamDataResponse>)
        requires
            old(self).batcher.wf(),
            old(self).batcher.clock_ok(now_ms),
            old(self).heartbeat.clock_ok(now_ms),
        ensures
            final(self).batcher.wf(),
            final(self).stream_id == old(self).stream_id,
            final(self).finality == old(self).finality,
            final(self).sequence == old(self).sequence,
            final(self).batcher.batch_size == old(self).batcher.batch_size,
            final(self).batcher.window_ms == old(self).batcher.window_ms,
            final(self).heartbeat.interval_ms == old(self).heartbeat.interval_ms,
            if old(self).batcher.pending@.len() > 0 && now_ms - old(self).batcher.window_start_ms
                >= old(self).batcher.window_ms {
                &&& out matches Some(resp) && resp.stream_id == old(self).stream_id && (
                resp.body matches ResponseBody::Data { end_cursor, values, .. } && encodes(
                    old(self).batcher.pending@.last().cursor,
                    end_cursor,
                ) && values@.len() == old(self).batcher.pending@.len())
                &&& final(self).batcher.pending@.len() == 0
                &&& final(self).heartbeat.last_activity_ms == now_ms
            } else {
                &&& out is None
                &&& final(self).batcher.pending@ == old(self).batcher.pending@
                &&& final(self).batcher.window_start_ms == old(self).batcher.window_start_ms
                &&& final(self).heartbeat == old(self).heartbeat
            },
    {
        match self.batcher.on_timer(now_ms) {
            Some(b) => {
                self.heartbeat.note_item(now_ms);
                Some(batch_response(self.stream_id, &b, self.finality))
            },
            None => None,
        }
    }

    /// Acts on the heartbeat timer: exactly when the idle interval has
    /// elapsed since the last produced item, the reserved tag-0 heartbeat
    /// goes out. It carries no cursor and leaves the sequence and the
    /// pending batch untouched, so it cannot displace the session's
    /// last-observed cursor.
    pub fn on_heartbeat_timer(&mut self, now_ms: u64) -> (out: Option<StreamDataResponse>)
        requires
            old(self).heartbeat.clock_ok(now_ms),
        ensures
            final(self).stream_id == old(self).stream_id,
            final(self).finality == old(self).finality,
            final(self).sequence == old(self).sequence,
            final(self).batcher == old(self).batcher,
            final(self).heartbeat.interval_ms == old(self).heartbeat.interval_ms,
            if now_ms - old(self).heartbeat.last_activity_ms >= old(
                self,
            ).heartbeat.interval_ms {
                &&& out matches Some(resp) && resp.stream_id == 0 && resp.body
                    == ResponseBody::Heartbeat
                &&& final(self).heartbeat.last_activity_ms == now_ms
            } else {
                &&& out is None
                &&& final(self).heartbeat == old(self).heartbeat
            },
    {
        if self.heartbeat.on_tick(now_ms) {
            Some(heartbeat_response())
        } else {
            None
        }
    }
}

/// The protocol entry point: validates initial requests and builds
/// session pipelines.
#[derive(Debug)]
pub struct StreamService {
    /// Batch size used when the client names none.
    pub default_batch_size: u64,
    /// Smallest accepted batch size.
    pub min_batch_size: u64,
    /// Largest accepted batch size.
    pub max_batch_size: u64,
    /// Time bound of the batch window, in milliseconds.
    pub batch_window_ms: u64,
    /// Idle interval of the heartbeat layer, in milliseconds.
    pub heartbeat_interval_ms: u64,
}

impl StreamService {
    /// The service carries the configured session bounds.
    pub open spec fn wf(self) -> bool {
        &&& self.default_batch_size == DEFAULT_BATCH_SIZE
        &&& self.min_batch_size == MIN_BATCH_SIZE
        &&& self.max_batch_size == MAX_BATCH_SIZE
        &&& self.batch_window_ms == BATCH_WINDOW_MS
        &&& self.heartbeat_interval_ms == HEARTBEAT_INTERVAL_MS
    }

    pub fn new() -> (s: StreamService)
        ensures
            s.wf(),
    {
        StreamService {
            default_batch_size: DEFAULT_BATCH_SIZE,
            min_batch_size: MIN_BATCH_SIZE,
            max_batch_size: MAX_BATCH_SIZE,
            batch_window_ms: BATCH_WINDOW_MS,
            heartbeat_interval_ms: HEARTBEAT_INTERVAL_MS,
        }
    }

    /// Validates the initial control message against the finalized tip
    /// known at subscription time and, when it is acceptable, builds the
    /// session pipeline. A rejected request builds nothing and yields no
    /// response at all; in particular the pending tier, an unspecified
    /// tier and any unknown tier are rejected outright.
    ///
    /// `now_ms` is the host clock reading that starts the heartbeat
    /// timer. Heights at the very top of the `u64` range are a machine
    /// bound the host screens out before calling.
    pub fn stream_data(
        &self,
        request: StreamDataRequest,
        finalized_tip: Option<BlockId>,
        now_ms: u64,
    ) -> (r: Result<StreamSession, RequestError>)
        requires
            self.wf(),
            finalized_tip matches Some(t) ==> t.height < u64::MAX,
        ensures
            r is Err <==> request_rejection(request, finalized_tip) is Some,
            r matches Err(e) ==> Some(e) == request_rejection(request, finalized_tip),
            r matches Ok(sess) ==> (finalized_tip matches Some(t) && {
                &&& sess.stream_id == stream_tag_of(request)
                &&& sess.finality == FinalityTier::Finalized
                &&& sess.sequence.wf()
                &&& !sess.sequence.done
                &&& sess.sequence.tip_height == t.height
                &&& sess.sequence.next_height == (match request.starting_cursor {
                    Some(c) => c.height + 1,
                    None => 0,
                })
                &&& sess.sequence.stream_id == stream_tag_of(request)
                &&& sess.sequence.filter@ == (match request.filter {
                    Some(f) => f@,
                    None => Seq::<u8>::empty(),
                })
                &&& sess.batcher.wf()
                &&& sess.batcher.pending@.len() == 0
                &&& sess.batcher.batch_size == clamped_batch_size(request.batch_size) as usize
                &&& sess.batcher.window_ms == BATCH_WINDOW_MS
                &&& sess.heartbeat.interval_ms == HEARTBEAT_INTERVAL_MS
                &&& sess.heartbeat.last_activity_ms == now_ms
            }),
    {
        let starting: Option<BlockId> = match &request.starting_cursor {
            Some(c) => match decode(c) {
                Ok(b) => Some(b),
                Err(_) => {
                    return Err(RequestError::InvalidCursor);
                },
            },
            None => None,
        };
        let code: u32 = match request.finality {
            Some(c0) => c0,
            None => FINALITY_CODE_UNKNOWN,
        };
        if code == FINALITY_CODE_PENDING {
            return Err(RequestError::PendingNotImplemented);
        }
        if code != FINALITY_CODE_FINALIZED {
            return Err(RequestError::UnsupportedFinality);
        }
        let tip: BlockId = match finalized_tip {
            Some(t) => t,
            None => {
                return Err(RequestError::NoFinalizedData);
            },
        };
        let starting_height: Option<u64> = match &starting {
            Some(b) => {
                if b.height > tip.height {
                    return Err(RequestError::CursorBeyondTip);
                }
                Some(b.height)
            },
            None => None,
        };
        let filter: Vec<u8> = match request.filter {
            Some(f) => f,
            None => Vec::new(),
        };
        let stream_id: u64 = match request.stream_id {
            Some(id) => id,
            None => 0,
        };
        let requested: u64 = match request.batch_size {
            Some(n) => n,
            None => DEFAULT_BATCH_SIZE,
        };
        let clamped: u64 = if requested < MIN_BATCH_SIZE {
            MIN_BATCH_SIZE
        } else if requested > MAX_BATCH_SIZE {
            MAX_BATCH_SIZE
        } else {
            requested
        };
        let sequence = ResumableBlockSequence::new(starting_height, tip.height, filter, stream_id);
        let batcher = BatchWindow::new(clamped as usize, BATCH_WINDOW_MS);
        let heartbeat = HeartbeatWrapper::new(HEARTBEAT_INTERVAL_MS, now_ms);
        Ok(StreamSession { stream_id, finality: FinalityTier::Finalized, sequence, batcher, heartbeat })
    }
}

} // verus!
