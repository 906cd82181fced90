//! The resumable block sequence: one ordered, gap-free, duplicate-free
//! feed of data and invalidation messages, merged from historical replay
//! and a live ingestion feed.
//!
//! The sequence is a state machine driven by its host. [`ResumableBlockSequence::next_action`]
//! says what the host must do next (read a block from storage, or await a
//! live event); the host performs it and hands the result to
//! [`ResumableBlockSequence::on_storage_result`] or
//! [`ResumableBlockSequence::on_event`], which return what the sequence
//! emits at that step.

use vstd::prelude::*;

use crate::block::{BlockId, BLOCK_HASH_LEN};
use crate::message::{BlockData, Message};

verus! {

/// An event of the live ingestion feed.
#[derive(Clone, Debug, PartialEq, Eq)]
pub enum IngestionEvent {
    /// A new block became finalized.
    NewFinalized { id: BlockId },
    /// The chain reorganized; `common_ancestor` is the highest height that
    /// survived.
    Reorg { common_ancestor: u64 },
    /// The feed ended; no further events will arrive.
    Ended,
}

/// The outcome of one storage read requested by the sequence.
#[derive(Clone, Debug, PartialEq, Eq)]
pub enum StorageOutcome {
    /// The block exists; its hash and filtered payload.
    Found { hash: Vec<u8>, payload: Vec<u8> },
    /// No block at the requested height.
    NotFound,
    /// The storage backend failed.
    Failed,
}

/// What the host must do next to advance the sequence.
#[derive(Clone, Copy, Debug, PartialEq, Eq)]
pub enum SequenceAction {
    /// Read the block at `height` from storage, with the session's filter.
    ReadBlock { height: u64 },
    /// Nothing to replay; await the next live ingestion event.
    AwaitEvent,
}

/// What the sequence produced at one step.
#[derive(Clone, Debug, PartialEq, Eq)]
pub enum SequenceStep {
    /// Emit this message downstream.
    Emit { message: Message },
    /// Nothing to emit at this step.
    Quiet,
    /// The sequence ended cleanly; emit nothing further.
    End,
    /// A fatal storage inconsistency or failure; the session must end with
    /// an internal error.
    Fatal,
}

/// One input to the sequence state machine; used to state laws that
/// quantify over arbitrary steps.
pub enum SequenceInput {
    Storage(StorageOutcome),
    Event(IngestionEvent),
}

/// The resumable block sequence's state.
///
/// The host must not write these fields; they are public so that callers
/// can reason about the machine, and are only changed by the methods
/// below.
#[derive(Debug)]
pub struct ResumableBlockSequence {
    /// The next height to fetch and emit.
    pub next_height: u64,
    /// The highest height currently known finalized.
    pub tip_height: u64,
    /// The client's opaque filter, passed to every storage read.
    pub filter: Vec<u8>,
    /// The session's stream tag.
    pub stream_id: u64,
    /// Set once the sequence ended or failed; no further steps are taken.
    pub done: bool,
}

impl ResumableBlockSequence {
    /// Well-formedness: heights stay representable (the successor of the
    /// tip must fit in a `u64`) and the next height is never more than one
    /// beyond the tip, so the sequence leaves no gap.
    pub open spec fn wf(self) -> bool {
        &&& self.tip_height < u64::MAX
        &&& self.next_height <= self.tip_height + 1
    }

    /// Builds a sequence that resumes after `starting_height` (or from
    /// genesis) and replays up to `tip`, the finalized tip recorded at
    /// subscription time. Starting cursors beyond the tip are rejected by
    /// session validation before this runs.
    pub fn new(starting_height: Option<u64>, tip: u64, filter: Vec<u8>, stream_id: u64) -> (s: Self)
        requires
            tip < u64::MAX,
            starting_height matches Some(h) ==> h <= tip,
        ensures
            s.wf(),
            !s.done,
            s.tip_height == tip,
            s.next_height == (match starting_height {
                Some(h) => h + 1,
                None => 0,
            }),
            s.filter == filter,
            s.stream_id == stream_id,
    {
        let next_height: u64 = match starting_height {
            Some(h) => h + 1,
            None => 0,
        };
        ResumableBlockSequence { next_height, tip_height: tip, filter, stream_id, done: false }
    }

    /// What the host must do next: replay the next height while it is at
    /// or below the tip, otherwise wait for the live feed.
    pub fn next_action(&self) -> (a: SequenceAction)
        requires
            !self.done,
        ensures
            self.next_height <= self.tip_height ==> a == (SequenceAction::ReadBlock {
                height: self.next_height,
            }),
            self.next_height > self.tip_height ==> a == SequenceAction::AwaitEvent,
    {
        if self.next_height <= self.tip_height {
            SequenceAction::ReadBlock { height: self.next_height }
        } else {
            SequenceAction::AwaitEvent
        }
    }

    /// The transition taken by [`Self::on_storage_result`]: a found block
    /// is emitted as data at the requested height and the sequence
    /// advances one height; a miss or failure at a height known finalized
    /// is a fatal inconsistency.
    pub open spec fn storage_step(
        pre: Self,
        outcome: StorageOutcome,
        post: Self,
        out: SequenceStep,
    ) -> bool {
        match outcome {
            StorageOutcome::Found { hash, payload } => {
                if hash@.len() == BLOCK_HASH_LEN {
                    &&& post == (Self { next_height: (pre.next_height + 1) as u64, ..pre })
                    &&& out == (SequenceStep::Emit {
                        message: Message::Data {
                            block: BlockData {
                                cursor: BlockId { height: pre.next_height, hash },
                                payload,
                            },
                        },
                    })
                } else {
                    &&& post == (Self { done: true, ..pre })
                    &&& out == SequenceStep::Fatal
                }
            },
            StorageOutcome::NotFound => {
                &&& post == (Self { done: true, ..pre })
                &&& out == SequenceStep::Fatal
            },
            StorageOutcome::Failed => {
                &&& post == (Self { done: true, ..pre })
                &&& out == SequenceStep::Fatal
            },
        }
    }

    /// Feeds the outcome of the storage read requested by
    /// [`Self::next_action`] into the sequence.
    pub fn on_storage_result(&mut self, outcome: StorageOutcome) -> (out: SequenceStep)
        requires
            old(self).wf(),
            !old(self).done,
            old(self).next_height <= old(self).tip_height,
        ensures
            final(self).wf(),
            Self::storage_step(*old(self), outcome, *final(self), out),
    {
        match outcome {
            StorageOutcome::Found { hash, payload } => {
                if hash.len() == BLOCK_HASH_LEN {
                    let height = self.next_height;
                    self.next_height = self.next_height + 1;
                    SequenceStep::Emit {
                        message: Message::Data {
                            block: BlockData { cursor: BlockId { height, hash }, payload },
                        },
                    }
                } else {
                    self.done = true;
                    SequenceStep::Fatal
                }
            },
            StorageOutcome::NotFound => {
                self.done = true;
                SequenceStep::Fatal
            },
            StorageOutcome::Failed => {
                self.done = true;
                SequenceStep::Fatal
            },
        }
    }

    /// The transition taken by [`Self::on_event`]: a new finalized block
    /// advances the tip; a reorganization emits exactly one invalidation
    /// naming the common ancestor and resumes from its successor; the end
    /// of the feed ends the sequence cleanly. Announcements that do not
    /// advance the tip, and heights whose successor would not be
    /// representable, are ignored.
    pub open spec fn event_step(
        pre: Self,
        ev: IngestionEvent,
        post: Self,
        out: SequenceStep,
    ) -> bool {
        match ev {
            IngestionEvent::NewFinalized { id } => {
                if id.height > pre.tip_height && id.height < u64::MAX {
                    &&& post == (Self { tip_height: id.height, ..pre })
                    &&& out == SequenceStep::Quiet
                } else {
                    &&& post == pre
                    &&& out == SequenceStep::Quiet
                }
            },
            IngestionEvent::Reorg { common_ancestor } => {
                if common_ancestor < u64::MAX {
                    &&& post == (Self {
                        next_height: (common_ancestor + 1) as u64,
                        tip_height: common_ancestor,
                        ..pre
                    })
                    &&& out == (SequenceStep::Emit {
                        message: Message::Invalidate { cursor_height: common_ancestor },
                    })
                } else {
                    &&& post == (Self { done: true, ..pre })
                    &&& out == SequenceStep::Fatal
                }
            },
            IngestionEvent::Ended => {
                &&& post == (Self { done: true, ..pre })
                &&& out == SequenceStep::End
            },
        }
    }

    /// Feeds the next live ingestion event into the sequence.
    pub fn on_event(&mut self, ev: IngestionEvent) -> (out: SequenceStep)
        requires
            old(self).wf(),
            !old(self).done,
        ensures
            final(self).wf(),
            Self::event_step(*old(self), ev, *final(self), out),
    {
        match ev {
            IngestionEvent::NewFinalized { id } => {
                if id.height > self.tip_height && id.height < u64::MAX {
                    self.tip_height = id.height;
                }
                SequenceStep::Quiet
            },
            IngestionEvent::Reorg { common_ancestor } => {
                if common_ancestor < u64::MAX {
                    self.next_height = common_ancestor + 1;
                    self.tip_height = common_ancestor;
                    SequenceStep::Emit {
                        message: Message::Invalidate { cursor_height: common_ancestor },
                    }
                } else {
                    self.done = true;
                    SequenceStep::Fatal
                }
            },
            IngestionEvent::Ended => {
                self.done = true;
                SequenceStep::End
            },
        }
    }

    /// One step of the machine, over either kind of input.
    pub open spec fn step(pre: Self, input: SequenceInput, post: Self, out: SequenceStep) -> bool {
        match input {
            SequenceInput::Storage(outcome) => Self::storage_step(pre, outcome, post, out),
            SequenceInput::Event(ev) => Self::event_step(pre, ev, post, out),
        }
    }

    /// The host may feed this input in this state: storage results only
    /// answer a requested read, and a finished machine takes no step.
    pub open spec fn input_allowed(pre: Self, input: SequenceInput) -> bool {
        &&& pre.wf()
        &&& !pre.done
        &&& (input matches SequenceInput::Storage(_) ==> pre.next_height <= pre.tip_height)
    }

    /// A run of the machine: from `s0`, each recorded step answers an
    /// allowed input with a valid transition to the next recorded state,
    /// producing the recorded output.
    pub open spec fn run(s0: Self, trace: Seq<(SequenceInput, Self, SequenceStep)>) -> bool
        decreases trace.len(),
    {
        trace.len() == 0 || {
            &&& Self::input_allowed(s0, trace[0].0)
            &&& Self::step(s0, trace[0].0, trace[0].1, trace[0].2)
            &&& Self::run(trace[0].1, trace.drop_first())
        }
    }
}

/// The input is a reorganization event naming a common ancestor below `h`.
pub open spec fn reorg_below(input: SequenceInput, h: u64) -> bool {
    input matches SequenceInput::Event(IngestionEvent::Reorg { common_ancestor })
        && common_ancestor < h
}

/// The step's output is a data message at a height at or below `h`.
pub open spec fn emits_data_at_or_below(out: SequenceStep, h: u64) -> bool {
    out matches SequenceStep::Emit { message: Message::Data { block } }
        && block.cursor.height <= h
}

/// A session resumed at cursor height `h` never emits data at a height at
/// or below `h`: one step of the machine keeps the next height above `h`
/// and emits only above `h`, provided no reorganization names a common
/// ancestor below `h` (such a reorganization legitimately invalidates the
/// resumption point itself and resumes below it).
pub proof fn lemma_step_stays_above_start(
    pre: ResumableBlockSequence,
    input: SequenceInput,
    post: ResumableBlockSequence,
    out: SequenceStep,
    h: u64,
)
    requires
        pre.next_height > h,
        ResumableBlockSequence::input_allowed(pre, input),
        ResumableBlockSequence::step(pre, input, post, out),
        !reorg_below(input, h),
    ensures
        post.next_height > h,
        !emits_data_at_or_below(out, h),
{
}

/// The trace form of the law above: over any run of the machine from a
/// state whose next height is above `h`, in which no reorganization names
/// a common ancestor below `h`, every data message is emitted at a height
/// strictly above `h`.
pub proof fn lemma_run_stays_above_start(
    s0: ResumableBlockSequence,
    trace: Seq<(SequenceInput, ResumableBlockSequence, SequenceStep)>,
    h: u64,
)
    requires
        s0.next_height > h,
        ResumableBlockSequence::run(s0, trace),
        forall|i: int| 0 <= i < trace.len() ==> !reorg_below(#[trigger] trace[i].0, h),
    ensures
        forall|i: int| 0 <= i < trace.len() ==> !emits_data_at_or_below(#[trigger] trace[i].2, h),
    decreases trace.len(),
{
    if trace.len() > 0 {
        lemma_step_stays_above_start(s0, trace[0].0, trace[0].1, trace[0].2, h);
        let rest = trace.drop_first();
        assert forall|i: int| 0 <= i < rest.len() implies !reorg_below(#[trigger] rest[i].0, h) by {
            assert(rest[i] == trace[i + 1]);
        }
        lemma_run_stays_above_start(trace[0].1, rest, h);
        assert forall|i: int| 0 <= i < trace.len() implies !emits_data_at_or_below(
            #[trigger] trace[i].2,
            h,
        ) by {
            if i > 0 {
                assert(rest[i - 1] == trace[i]);
                assert(!emits_data_at_or_below(rest[i - 1].2, h));
            }
        }
    }
}

/// The state from which step `k` of a run is taken; `k == trace.len()`
/// gives the state after the last step.
pub open spec fn state_before(
    s0: ResumableBlockSequence,
    trace: Seq<(SequenceInput, ResumableBlockSequence, SequenceStep)>,
    k: int,
) -> ResumableBlockSequence {
    if k == 0 {
        s0
    } else {
        trace[k - 1].1
    }
}

/// Each step of a valid run is itself a valid, allowed step from the
/// state the run reached before it.
pub proof fn lemma_run_index(
    s0: ResumableBlockSequence,
    trace: Seq<(SequenceInput, ResumableBlockSequence, SequenceStep)>,
    k: int,
)
    requires
        ResumableBlockSequence::run(s0, trace),
        0 <= k < trace.len(),
    ensures
        ResumableBlockSequence::input_allowed(state_before(s0, trace, k), trace[k].0),
        ResumableBlockSequence::step(
            state_before(s0, trace, k),
            trace[k].0,
            trace[k].1,
            trace[k].2,
        ),
    decreases k,
{
    if k > 0 {
        let rest = trace.drop_first();
        lemma_run_index(trace[0].1, rest, k - 1);
        assert(rest[k - 1] == trace[k]);
        if k > 1 {
            assert(rest[k - 2] == trace[k - 1]);
        }
    }
}

/// The step's output is an invalidation.
pub open spec fn emits_invalidate(out: SequenceStep) -> bool {
    out matches SequenceStep::Emit { message: Message::Invalidate { .. } }
}

/// A step that does not invalidate never moves the next height
/// backwards.
pub proof fn lemma_step_monotone(
    pre: ResumableBlockSequence,
    input: SequenceInput,
    post: ResumableBlockSequence,
    out: SequenceStep,
)
    requires
        ResumableBlockSequence::input_allowed(pre, input),
        ResumableBlockSequence::step(pre, input, post, out),
        !emits_invalidate(out),
    ensures
        post.next_height >= pre.next_height,
{
}

/// Over a stretch of a run in which nothing is invalidated, the next
/// height never moves backwards.
pub proof fn lemma_no_invalidate_monotone(
    s0: ResumableBlockSequence,
    trace: Seq<(SequenceInput, ResumableBlockSequence, SequenceStep)>,
    a: int,
    b: int,
)
    requires
        ResumableBlockSequence::run(s0, trace),
        0 <= a <= b <= trace.len(),
        forall|k: int| a <= k < b ==> !emits_invalidate(#[trigger] trace[k].2),
    ensures
        state_before(s0, trace, b).next_height >= state_before(s0, trace, a).next_height,
    decreases b - a,
{
    if a < b {
        lemma_run_index(s0, trace, a);
        lemma_step_monotone(state_before(s0, trace, a), trace[a].0, trace[a].1, trace[a].2);
        lemma_no_invalidate_monotone(s0, trace, a + 1, b);
    }
}

/// Within one session, data heights are strictly increasing except
/// immediately following an invalidation: any two data messages of a run
/// with no invalidation between them come out in strictly increasing
/// height order.
pub proof fn lemma_data_heights_increase_between_invalidations(
    s0: ResumableBlockSequence,
    trace: Seq<(SequenceInput, ResumableBlockSequence, SequenceStep)>,
    i: int,
    j: int,
    bi: BlockData,
    bj: BlockData,
)
    requires
        ResumableBlockSequence::run(s0, trace),
        0 <= i < j < trace.len(),
        trace[i].2 == (SequenceStep::Emit { message: Message::Data { block: bi } }),
        trace[j].2 == (SequenceStep::Emit { message: Message::Data { block: bj } }),
        forall|k: int| i < k < j ==> !emits_invalidate(#[trigger] trace[k].2),
    ensures
        bj.cursor.height > bi.cursor.height,
{
    lemma_run_index(s0, trace, i);
    lemma_run_index(s0, trace, j);
    lemma_no_invalidate_monotone(s0, trace, i + 1, j);
}

/// A reorganization event naming common ancestor `k` causes exactly one
/// invalidation with cursor height `k`, and the next data message the
/// sequence emits afterwards is at height `k + 1`.
pub proof fn lemma_reorg_invalidates_then_resumes(
    pre: ResumableBlockSequence,
    k: u64,
    post: ResumableBlockSequence,
    out: SequenceStep,
    outcome: StorageOutcome,
    post2: ResumableBlockSequence,
    out2: SequenceStep,
)
    requires
        k < u64::MAX,
        ResumableBlockSequence::event_step(
            pre,
            IngestionEvent::Reorg { common_ancestor: k },
            post,
            out,
        ),
        ResumableBlockSequence::storage_step(post, outcome, post2, out2),
        outcome matches StorageOutcome::Found { hash, payload } && hash@.len()
            == BLOCK_HASH_LEN,
    ensures
        out == (SequenceStep::Emit { message: Message::Invalidate { cursor_height: k } }),
        post.next_height == k + 1,
        out2 matches SequenceStep::Emit { message: Message::Data { block } }
            && block.cursor.height == k + 1,
{
}

} // verus!
