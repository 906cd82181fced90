use blockstream::batch::BatchWindow;
use blockstream::block::{decode, encode, BlockId, Cursor, CursorError};
use blockstream::chain::{run_replay, ChainBlock, FinalizedChain};
use blockstream::heartbeat::HeartbeatWrapper;
use blockstream::message::{Batch, BlockData, Message};
use blockstream::sequence::{
    IngestionEvent, ResumableBlockSequence, SequenceAction, SequenceStep, StorageOutcome,
};
use blockstream::session::{
    ControlPolicy, FinalityTier, RequestError, StreamDataRequest, StreamService,
    FINALITY_CODE_ACCEPTED, FINALITY_CODE_FINALIZED, FINALITY_CODE_PENDING,
    FINALITY_CODE_UNKNOWN,
};
use blockstream::webhook::{
    data_cursor_action, genesis_label, plan_data_delivery, plan_invalidate_delivery,
    CursorAction, WebhookDataPlan,
};
use blockstream::wire::{
    adapt_stream_item, batch_response, heartbeat_response, internal_error, invalidate_response,
    mk_internal_error, ResponseBody, StreamDataResponse, StreamItem,
};

fn hash_of(tag: u8) -> Vec<u8> {
    vec![tag; 32]
}

fn block_id(height: u64, tag: u8) -> BlockId {
    BlockId { height, hash: hash_of(tag) }
}

fn chain_of(base: u64, tags: &[u8]) -> FinalizedChain {
    let blocks = tags
        .iter()
        .map(|t| ChainBlock { hash: hash_of(*t), payload: vec![*t, *t] })
        .collect();
    FinalizedChain { base_height: base, blocks }
}

fn finalized_request() -> StreamDataRequest {
    StreamDataRequest {
        filter: None,
        batch_size: None,
        starting_cursor: None,
        stream_id: None,
        finality: Some(FINALITY_CODE_FINALIZED),
    }
}

fn data_block(height: u64, tag: u8) -> BlockData {
    BlockData { cursor: block_id(height, tag), payload: vec![tag] }
}

fn data_step(height: u64, tag: u8) -> SequenceStep {
    SequenceStep::Emit { message: Message::Data { block: data_block(height, tag) } }
}

// A session starting at genesis replays the whole finalized chain in
// order, one data message per block, no gaps, no duplicates.
#[test]
fn genesis_replay_is_complete_and_ordered() {
    let chain = chain_of(0, &[10, 11, 12]);
    let mut seq = ResumableBlockSequence::new(None, 2, Vec::new(), 0);
    let msgs = run_replay(&mut seq, &chain);
    assert_eq!(msgs.len(), 3);
    for (i, msg) in msgs.iter().enumerate() {
        match msg {
            Message::Data { block } => {
                assert_eq!(block.cursor.height, i as u64);
                assert_eq!(block.cursor.hash, hash_of(10 + i as u8));
                assert_eq!(block.payload, vec![10 + i as u8, 10 + i as u8]);
            }
            other => panic!("expected data, got {:?}", other),
        }
    }
    assert_eq!(seq.next_height, 3);
}

// Starting at cursor height h yields only heights strictly above h.
#[test]
fn resumed_replay_starts_after_cursor() {
    let chain = chain_of(0, &[20, 21, 22, 23]);
    let mut seq = ResumableBlockSequence::new(Some(1), 3, Vec::new(), 0);
    let msgs = run_replay(&mut seq, &chain);
    assert_eq!(msgs.len(), 2);
    let heights: Vec<u64> = msgs
        .iter()
        .map(|m| match m {
            Message::Data { block } => block.cursor.height,
            other => panic!("expected data, got {:?}", other),
        })
        .collect();
    assert_eq!(heights, vec![2, 3]);
    assert!(heights.iter().all(|h| *h > 1));
}

// A reorganization at common ancestor k emits exactly one invalidation
// with cursor height k, and data resumes at k + 1 under the new chain.
#[test]
fn reorg_invalidates_once_and_resumes_at_successor() {
    let chain = chain_of(0, &[30, 31, 32, 33, 34, 35]);
    let mut seq = ResumableBlockSequence::new(None, 5, Vec::new(), 0);
    let replayed = run_replay(&mut seq, &chain);
    assert_eq!(replayed.len(), 6);

    let out = seq.on_event(IngestionEvent::Reorg { common_ancestor: 2 });
    assert_eq!(
        out,
        SequenceStep::Emit { message: Message::Invalidate { cursor_height: 2 } }
    );
    assert_eq!(seq.next_height, 3);
    assert_eq!(seq.tip_height, 2);

    // the post-reorg chain announces its blocks; replay resumes at 3
    let quiet = seq.on_event(IngestionEvent::NewFinalized { id: block_id(3, 90) });
    assert_eq!(quiet, SequenceStep::Quiet);
    assert_eq!(
        seq.next_action(),
        SequenceAction::ReadBlock { height: 3 }
    );
    let out = seq.on_storage_result(StorageOutcome::Found {
        hash: hash_of(90),
        payload: vec![90],
    });
    match out {
        SequenceStep::Emit { message: Message::Data { block } } => {
            assert_eq!(block.cursor.height, 3);
            assert_eq!(block.cursor.hash, hash_of(90));
        }
        other => panic!("expected data at height 3, got {:?}", other),
    }
}

// With batch_size 3 and a 250 ms window, items at t=0 and t=50 with
// nothing further are flushed as one two-item batch by the time bound.
#[test]
fn window_flushes_partial_batch_by_time() {
    let svc = StreamService::new();
    let mut req = finalized_request();
    req.batch_size = Some(3);
    let mut sess = svc
        .stream_data(req, Some(block_id(100, 1)), 0)
        .expect("session");

    let out = sess.on_sequence_step(data_step(1, 41), 0);
    assert!(out.is_empty());
    let out = sess.on_sequence_step(data_step(2, 42), 50);
    assert!(out.is_empty());

    // before the window elapses nothing flushes
    let mut sess2 = sess;
    assert!(sess2.on_batch_timer(200).is_none());

    let resp = sess2.on_batch_timer(260).expect("time-bound flush");
    assert_eq!(resp.stream_id, 0);
    match resp.body {
        ResponseBody::Data { start_cursor, end_cursor, finality, values } => {
            assert_eq!(values, vec![vec![41], vec![42]]);
            assert_eq!(start_cursor.height, 1);
            assert_eq!(end_cursor.height, 2);
            assert_eq!(finality, FinalityTier::Finalized);
        }
        other => panic!("expected data response, got {:?}", other),
    }
    // the pending batch is gone; the timer stays quiet afterwards
    assert!(sess2.on_batch_timer(600).is_none());
}

// The count bound flushes exactly when the batch fills, in arrival order.
#[test]
fn count_bound_flushes_full_batch() {
    let mut window = BatchWindow::new(2, 250);
    assert!(window.on_data(data_block(5, 51), 1000).is_none());
    let batch = window.on_data(data_block(6, 52), 1001).expect("count flush");
    assert_eq!(batch.items.len(), 2);
    assert_eq!(batch.items[0].cursor.height, 5);
    assert_eq!(batch.items[1].cursor.height, 6);
    assert_eq!(batch.elapsed_ms, 1);
    assert_eq!(window.pending.len(), 0);
}

// An invalidation flushes the pending batch first and follows alone.
#[test]
fn invalidate_flushes_pending_then_goes_alone() {
    let svc = StreamService::new();
    let mut req = finalized_request();
    req.batch_size = Some(10);
    req.stream_id = Some(9);
    let mut sess = svc
        .stream_data(req, Some(block_id(100, 1)), 0)
        .expect("session");

    assert!(sess.on_sequence_step(data_step(7, 61), 10).is_empty());
    let out = sess.on_sequence_step(
        SequenceStep::Emit { message: Message::Invalidate { cursor_height: 3 } },
        20,
    );
    assert_eq!(out.len(), 2);
    match &out[0].body {
        ResponseBody::Data { values, end_cursor, .. } => {
            assert_eq!(values.len(), 1);
            assert_eq!(end_cursor.height, 7);
        }
        other => panic!("expected flushed batch first, got {:?}", other),
    }
    assert_eq!(out[1].stream_id, 9);
    assert_eq!(out[1].body, ResponseBody::Invalidate { cursor_height: 3 });
}

// When the upstream sequence ends, the pending batch is flushed, not
// discarded.
#[test]
fn end_flushes_pending_batch() {
    let svc = StreamService::new();
    let mut sess = svc
        .stream_data(finalized_request(), Some(block_id(100, 1)), 0)
        .expect("session");
    assert!(sess.on_sequence_step(data_step(8, 71), 5).is_empty());
    let out = sess.on_sequence_step(SequenceStep::End, 9);
    assert_eq!(out.len(), 1);
    match &out[0].body {
        ResponseBody::Data { values, .. } => assert_eq!(values, &vec![vec![71]]),
        other => panic!("expected flushed batch, got {:?}", other),
    }
}

// After 30 s without items the next produced item is a heartbeat with
// tag 0, and it changes nothing about the sequence's cursor position.
#[test]
fn idle_session_heartbeats_with_reserved_tag() {
    let svc = StreamService::new();
    let mut req = finalized_request();
    req.stream_id = Some(4);
    let mut sess = svc
        .stream_data(req, Some(block_id(100, 1)), 0)
        .expect("session");
    let next_before = sess.sequence.next_height;

    assert!(sess.on_heartbeat_timer(29_999).is_none());
    let resp = sess.on_heartbeat_timer(30_000).expect("heartbeat due");
    assert_eq!(resp.stream_id, 0);
    assert_eq!(resp.body, ResponseBody::Heartbeat);
    assert_eq!(sess.sequence.next_height, next_before);
    // emitting the heartbeat reset the idle timer
    assert!(sess.on_heartbeat_timer(30_001).is_none());
    assert!(sess.on_heartbeat_timer(60_000).is_some());
}

// A real item resets the idle timer.
#[test]
fn real_items_reset_heartbeat_timer() {
    let mut hb = HeartbeatWrapper::new(30_000, 0);
    hb.note_item(29_000);
    assert!(!hb.on_tick(58_999));
    assert!(hb.on_tick(59_000));
}

// Every valid block identity survives the cursor round trip.
#[test]
fn cursor_round_trip_is_identity() {
    for (height, tag) in [(0u64, 0u8), (1, 7), (u64::MAX - 1, 255)] {
        let id = block_id(height, tag);
        let decoded = decode(&encode(&id)).expect("round trip");
        assert_eq!(decoded, id);
    }
}

// A cursor whose hash has the wrong length is rejected.
#[test]
fn short_cursor_hash_is_rejected() {
    let cursor = Cursor { height: 3, hash: vec![1; 31] };
    assert_eq!(decode(&cursor), Err(CursorError::InvalidHashLength));
}

// A session requesting the pending tier, or an unspecified or unknown
// tier, is rejected immediately and yields no session at all.
#[test]
fn unsupported_finality_is_rejected_up_front() {
    let svc = StreamService::new();
    let tip = Some(block_id(5, 1));

    let mut req = finalized_request();
    req.finality = Some(FINALITY_CODE_PENDING);
    assert_eq!(
        svc.stream_data(req, tip.clone(), 0).unwrap_err(),
        RequestError::PendingNotImplemented
    );

    for code in [None, Some(FINALITY_CODE_UNKNOWN), Some(FINALITY_CODE_ACCEPTED), Some(99)] {
        let mut req = finalized_request();
        req.finality = code;
        assert_eq!(
            svc.stream_data(req, tip.clone(), 0).unwrap_err(),
            RequestError::UnsupportedFinality
        );
    }
}

// An undecodable starting cursor rejects the session before anything is
// built, whatever else the request says.
#[test]
fn invalid_cursor_rejects_session() {
    let svc = StreamService::new();
    let mut req = finalized_request();
    req.starting_cursor = Some(Cursor { height: 1, hash: vec![0; 8] });
    assert_eq!(
        svc.stream_data(req, Some(block_id(5, 1)), 0).unwrap_err(),
        RequestError::InvalidCursor
    );
}

// A starting cursor above the finalized tip is rejected.
#[test]
fn cursor_beyond_tip_rejects_session() {
    let svc = StreamService::new();
    let mut req = finalized_request();
    req.starting_cursor = Some(Cursor { height: 6, hash: vec![0; 32] });
    assert_eq!(
        svc.stream_data(req, Some(block_id(5, 1)), 0).unwrap_err(),
        RequestError::CursorBeyondTip
    );
}

// Without any finalized block there is nothing to serve from.
#[test]
fn missing_tip_rejects_session() {
    let svc = StreamService::new();
    assert_eq!(
        svc.stream_data(finalized_request(), None, 0).unwrap_err(),
        RequestError::NoFinalizedData
    );
}

// The batch size defaults to 20 and is clamped into [1, 50].
#[test]
fn batch_size_defaults_and_clamps() {
    let svc = StreamService::new();
    let tip = Some(block_id(5, 1));
    let sess = svc.stream_data(finalized_request(), tip.clone(), 0).unwrap();
    assert_eq!(sess.batcher.batch_size, 20);

    let mut req = finalized_request();
    req.batch_size = Some(0);
    let sess = svc.stream_data(req, tip.clone(), 0).unwrap();
    assert_eq!(sess.batcher.batch_size, 1);

    let mut req = finalized_request();
    req.batch_size = Some(1000);
    let sess = svc.stream_data(req, tip.clone(), 0).unwrap();
    assert_eq!(sess.batcher.batch_size, 50);
}

// The session takes its parameters from the request: tag, cursor, filter.
#[test]
fn session_parameters_follow_request() {
    let svc = StreamService::new();
    let req = StreamDataRequest {
        filter: Some(vec![1, 2, 3]),
        batch_size: Some(5),
        starting_cursor: Some(Cursor { height: 4, hash: vec![9; 32] }),
        stream_id: Some(77),
        finality: Some(FINALITY_CODE_FINALIZED),
    };
    let sess = svc.stream_data(req, Some(block_id(9, 1)), 123).unwrap();
    assert_eq!(sess.stream_id, 77);
    assert_eq!(sess.finality, FinalityTier::Finalized);
    assert_eq!(sess.sequence.next_height, 5);
    assert_eq!(sess.sequence.tip_height, 9);
    assert_eq!(sess.sequence.filter, vec![1, 2, 3]);
    assert_eq!(sess.sequence.stream_id, 77);
    assert_eq!(sess.batcher.batch_size, 5);
    assert_eq!(sess.batcher.window_ms, 250);
    assert_eq!(sess.heartbeat.interval_ms, 30_000);
    assert_eq!(sess.heartbeat.last_activity_ms, 123);
}

// Control messages after the first are ignored with a warning.
#[test]
fn subsequent_control_messages_are_ignored() {
    let svc = StreamService::new();
    let sess = svc
        .stream_data(finalized_request(), Some(block_id(5, 1)), 0)
        .expect("session");
    let policy = sess.on_subsequent_request(&finalized_request());
    assert_eq!(policy, ControlPolicy::IgnoreWithWarning);
}

// A storage miss for a height known finalized is fatal, as is a storage
// failure.
#[test]
fn storage_miss_and_failure_are_fatal() {
    let mut seq = ResumableBlockSequence::new(None, 3, Vec::new(), 0);
    assert_eq!(seq.on_storage_result(StorageOutcome::NotFound), SequenceStep::Fatal);
    assert!(seq.done);

    let mut seq = ResumableBlockSequence::new(None, 3, Vec::new(), 0);
    assert_eq!(seq.on_storage_result(StorageOutcome::Failed), SequenceStep::Fatal);
    assert!(seq.done);
}

// The end of the ingestion feed ends the sequence cleanly.
#[test]
fn feed_end_ends_sequence_cleanly() {
    let mut seq = ResumableBlockSequence::new(Some(3), 3, Vec::new(), 0);
    assert_eq!(seq.next_action(), SequenceAction::AwaitEvent);
    assert_eq!(seq.on_event(IngestionEvent::Ended), SequenceStep::End);
    assert!(seq.done);
}

// Stale or non-advancing announcements are ignored; newer ones advance
// the tip and reopen replay.
#[test]
fn new_finalized_advances_tip_only_forward() {
    let mut seq = ResumableBlockSequence::new(Some(5), 5, Vec::new(), 0);
    assert_eq!(
        seq.on_event(IngestionEvent::NewFinalized { id: block_id(4, 1) }),
        SequenceStep::Quiet
    );
    assert_eq!(seq.tip_height, 5);
    assert_eq!(
        seq.on_event(IngestionEvent::NewFinalized { id: block_id(8, 2) }),
        SequenceStep::Quiet
    );
    assert_eq!(seq.tip_height, 8);
    assert_eq!(seq.next_action(), SequenceAction::ReadBlock { height: 6 });
}

// The chain model serves exactly its heights.
#[test]
fn chain_serves_only_its_heights() {
    let chain = chain_of(10, &[81, 82]);
    assert_eq!(chain.tip(), 11);
    match chain.read(11, &Vec::new()) {
        StorageOutcome::Found { hash, payload } => {
            assert_eq!(hash, hash_of(82));
            assert_eq!(payload, vec![82, 82]);
        }
        other => panic!("expected found, got {:?}", other),
    }
    assert_eq!(chain.read(9, &Vec::new()), StorageOutcome::NotFound);
    assert_eq!(chain.read(12, &Vec::new()), StorageOutcome::NotFound);
}

// Wire adaptation: a batch response carries the tag, both cursors and
// the payloads in order.
#[test]
fn batch_response_carries_cursors_and_values() {
    let batch = Batch {
        items: vec![data_block(3, 31), data_block(4, 32)],
        elapsed_ms: 17,
    };
    let resp = batch_response(12, &batch, FinalityTier::Finalized);
    assert_eq!(resp.stream_id, 12);
    match resp.body {
        ResponseBody::Data { start_cursor, end_cursor, finality, values } => {
            assert_eq!(start_cursor.height, 3);
            assert_eq!(start_cursor.hash, hash_of(31));
            assert_eq!(end_cursor.height, 4);
            assert_eq!(end_cursor.hash, hash_of(32));
            assert_eq!(finality, FinalityTier::Finalized);
            assert_eq!(values, vec![vec![31], vec![32]]);
        }
        other => panic!("expected data body, got {:?}", other),
    }
}

// Heartbeats and failures adapt to their fixed responses; real items
// pass through untouched.
#[test]
fn stream_items_adapt_to_wire() {
    assert_eq!(
        adapt_stream_item(StreamItem::HeartbeatDue),
        Ok(heartbeat_response())
    );
    let real = invalidate_response(3, 8);
    assert_eq!(
        adapt_stream_item(StreamItem::Item { response: real.clone() }),
        Ok(real)
    );
    assert_eq!(adapt_stream_item(StreamItem::Failed), Err("internal server error"));
}

// Internal failures never leak their cause to the client.
#[test]
fn internal_errors_are_generic() {
    assert_eq!(mk_internal_error(), "internal server error");
    assert_eq!(
        internal_error("database column family missing"),
        "internal server error"
    );
}

// Finality codes map to their tiers; unknown codes map to nothing.
#[test]
fn finality_codes_map_to_tiers() {
    assert_eq!(FinalityTier::from_code(FINALITY_CODE_PENDING), Some(FinalityTier::Pending));
    assert_eq!(FinalityTier::from_code(FINALITY_CODE_ACCEPTED), Some(FinalityTier::Accepted));
    assert_eq!(
        FinalityTier::from_code(FINALITY_CODE_FINALIZED),
        Some(FinalityTier::Finalized)
    );
    assert_eq!(FinalityTier::from_code(FINALITY_CODE_UNKNOWN), None);
    assert_eq!(FinalityTier::from_code(250), None);
}

// Webhook delivery decisions: raw mode posts array elements one by one,
// refuses other shapes with a warning, and always persists; envelope
// mode posts one wrapped body and skips invalidations only in raw mode.
#[test]
fn webhook_plans_follow_raw_mode() {
    assert_eq!(plan_data_delivery(true, true), WebhookDataPlan::SendEachValue);
    assert_eq!(plan_data_delivery(true, false), WebhookDataPlan::SkipMalformedBatch);
    assert_eq!(plan_data_delivery(false, true), WebhookDataPlan::SendWrappedBatch);
    assert_eq!(plan_data_delivery(false, false), WebhookDataPlan::SendWrappedBatch);
    assert_eq!(data_cursor_action(&WebhookDataPlan::SkipMalformedBatch), CursorAction::Persist);
    assert_eq!(data_cursor_action(&WebhookDataPlan::SendWrappedBatch), CursorAction::Persist);
    assert!(!plan_invalidate_delivery(true));
    assert!(plan_invalidate_delivery(false));
    assert_eq!(genesis_label(), "genesis");
}

// End to end: a resumed session replays, batches by count, and the
// responses carry strictly increasing cursor ranges.
#[test]
fn session_replays_and_batches_end_to_end() {
    let chain = chain_of(0, &[1, 2, 3, 4, 5]);
    let svc = StreamService::new();
    let mut req = finalized_request();
    req.batch_size = Some(2);
    req.starting_cursor = Some(Cursor { height: 0, hash: hash_of(1) });
    let mut sess = svc
        .stream_data(req, Some(block_id(4, 5)), 0)
        .expect("session");

    let msgs = run_replay(&mut sess.sequence, &chain);
    assert_eq!(msgs.len(), 4);
    let mut responses: Vec<StreamDataResponse> = Vec::new();
    let mut now = 0u64;
    for msg in msgs {
        now += 10;
        responses.extend(sess.on_sequence_step(SequenceStep::Emit { message: msg }, now));
    }
    assert_eq!(responses.len(), 2);
    let ranges: Vec<(u64, u64)> = responses
        .iter()
        .map(|r| match &r.body {
            ResponseBody::Data { start_cursor, end_cursor, .. } => {
                (start_cursor.height, end_cursor.height)
            }
            other => panic!("expected data, got {:?}", other),
        })
        .collect();
    assert_eq!(ranges, vec![(1, 2), (3, 4)]);
}
