//! An in-memory model of the finalized chain served by a storage backend,
//! and the replay driver that runs the block sequence against it.
//!
//! The finalized chain is linear: exactly one block per height, from a
//! base height up to the tip. A storage backend that serves such a chain
//! is modelled here as a vector of blocks indexed by height; the real
//! backend lives outside the crate and answers the sequence's read
//! requests the same way.

use vstd::prelude::*;

use crate::block::{BlockId, BLOCK_HASH_LEN};
use crate::message::Message;
use crate::sequence::{ResumableBlockSequence, SequenceAction, SequenceStep, StorageOutcome};

verus! {

/// One finalized block as storage serves it: its hash and its filtered
/// payload.
#[derive(Clone, Debug, PartialEq, Eq)]
pub struct ChainBlock {
    pub hash: Vec<u8>,
    pub payload: Vec<u8>,
}

/// A contiguous run of finalized blocks: the block at index `i` has
/// height `base_height + i`.
#[derive(Clone, Debug, PartialEq, Eq)]
pub struct FinalizedChain {
    pub base_height: u64,
    pub blocks: Vec<ChainBlock>,
}

impl FinalizedChain {
    /// Well-formedness: at least one block, all heights representable,
    /// and every hash of the fixed length.
    pub open spec fn wf(self) -> bool {
        &&& self.blocks@.len() >= 1
        &&& self.base_height + self.blocks@.len() <= u64::MAX
        &&& forall|i: int|
            0 <= i < self.blocks@.len() ==> (#[trigger] self.blocks@[i]).hash@.len()
                == BLOCK_HASH_LEN
    }

    /// The height of the chain's last block.
    pub open spec fn tip_spec(self) -> int {
        self.base_height + self.blocks@.len() - 1
    }

    /// The chain holds a block at this height.
    pub open spec fn holds_height(self, height: u64) -> bool {
        self.base_height <= height <= self.tip_spec()
    }

    /// The block stored at `height`.
    pub open spec fn block_at(self, height: u64) -> ChainBlock
        recommends
            self.holds_height(height),
    {
        self.blocks@[height - self.base_height]
    }

    /// The height of the chain's last block.
    pub fn tip(&self) -> (t: u64)
        requires
            self.wf(),
        ensures
            t == self.tip_spec(),
    {
        self.base_height + (self.blocks.len() - 1) as u64
    }

    /// The identity of the chain's last block: the highest finalized
    /// block a session can subscribe at.
    pub fn tip_id(&self) -> (id: BlockId)
        requires
            self.wf(),
        ensures
            id.height == self.tip_spec(),
            id.hash@ == self.blocks@.last().hash@,
            id.wf(),
    {
        let t = self.tip();
        let last = &self.blocks[self.blocks.len() - 1];
        BlockId { height: t, hash: last.hash.clone() }
    }

    /// Serves one storage read: the block at `height`, or a miss when the
    /// chain has no block there. The filter was already applied when the
    /// payloads were persisted, so it is not consulted here.
    pub fn read(&self, height: u64, _filter: &Vec<u8>) -> (o: StorageOutcome)
        requires
            self.wf(),
        ensures
            self.holds_height(height) ==> (o matches StorageOutcome::Found { hash, payload }
                && hash@ == self.block_at(height).hash@ && payload@ == self.block_at(
                height,
            ).payload@),
            !self.holds_height(height) ==> o == StorageOutcome::NotFound,
    {
        if height >= self.base_height && height - self.base_height < self.blocks.len() as u64 {
            let i = (height - self.base_height) as usize;
            let block = &self.blocks[i];
            StorageOutcome::Found { hash: block.hash.clone(), payload: block.payload.clone() }
        } else {
            StorageOutcome::NotFound
        }
    }
}

/// The data message `m` carries the chain's block at `height`.
pub open spec fn data_for(m: Message, chain: FinalizedChain, height: u64) -> bool {
    m matches Message::Data { block } && block.cursor.height == height && block.cursor.hash@
        == chain.block_at(height).hash@ && block.payload@ == chain.block_at(height).payload@
}

/// Runs the sequence's replay phase to completion against the chain:
/// every height from the sequence's next height up to the tip is fetched
/// in increasing order and emitted as one data message — no gap, no
/// duplicate, nothing out of order.
pub fn run_replay(seq: &mut ResumableBlockSequence, chain: &FinalizedChain) -> (msgs: Vec<
    Message,
>)
    requires
        old(seq).wf(),
        !old(seq).done,
        chain.wf(),
        old(seq).tip_height == chain.tip_spec(),
        old(seq).next_height >= chain.base_height,
    ensures
        final(seq).wf(),
        !final(seq).done,
        final(seq).next_height == old(seq).tip_height + 1,
        final(seq).tip_height == old(seq).tip_height,
        final(seq).filter == old(seq).filter,
        final(seq).stream_id == old(seq).stream_id,
        msgs@.len() == old(seq).tip_height + 1 - old(seq).next_height,
        forall|i: int|
            0 <= i < msgs@.len() ==> data_for(
                #[trigger] msgs@[i],
                *chain,
                (old(seq).next_height + i) as u64,
            ),
{
    let mut msgs: Vec<Message> = Vec::new();
    let ghost start = seq.next_height;
    while seq.next_height <= seq.tip_height
        invariant
            seq.wf(),
            !seq.done,
            chain.wf(),
            seq.tip_height == old(seq).tip_height,
            seq.tip_height == chain.tip_spec(),
            seq.filter == old(seq).filter,
            seq.stream_id == old(seq).stream_id,
            start == old(seq).next_height,
            start <= seq.next_height,
            seq.next_height >= chain.base_height,
            msgs@.len() == seq.next_height - start,
            forall|i: int|
                0 <= i < msgs@.len() ==> data_for(#[trigger] msgs@[i], *chain, (start + i) as u64),
        decreases seq.tip_height + 1 - seq.next_height,
    {
        let height = match seq.next_action() {
            SequenceAction::ReadBlock { height } => height,
            SequenceAction::AwaitEvent => {
                proof {
                    assert(false);
                }
                0u64
            },
        };
        let outcome = chain.read(height, &seq.filter);
        let step = seq.on_storage_result(outcome);
        match step {
            SequenceStep::Emit { message } => {
                msgs.push(message);
            },
            _ => {
                proof {
                    assert(false);
                }
            },
        }
    }
    msgs
}

} // verus!
