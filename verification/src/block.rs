//! Block identities and their wire-cursor encoding.

use vstd::prelude::*;

verus! {

/// Number of bytes in a block hash.
pub const BLOCK_HASH_LEN: usize = 32;

/// A block identity: the block's height together with its hash.
///
/// Heights are the primary order among finalized blocks; the hash
/// disambiguates competing blocks at the same height across
/// reorganizations. A well-formed identity carries a full-length hash.
#[derive(Clone, Debug, PartialEq, Eq)]
pub struct BlockId {
    pub height: u64,
    pub hash: Vec<u8>,
}

impl BlockId {
    /// A block identity is well formed when its hash has the fixed length.
    pub open spec fn wf(self) -> bool {
        self.hash@.len() == BLOCK_HASH_LEN
    }

    /// Two identities denote the same block: equal height and equal hash
    /// bytes.
    pub open spec fn same_block(self, other: BlockId) -> bool {
        self.height == other.height && self.hash@ == other.hash@
    }
}

/// The wire form of a position in the chain: a height plus hash bytes of
/// unchecked length. The absence of a cursor (an `Option<Cursor>` that is
/// `None`) denotes genesis, the position before the first block.
#[derive(Clone, Debug, PartialEq, Eq)]
pub struct Cursor {
    pub height: u64,
    pub hash: Vec<u8>,
}

/// Rejections of a wire cursor.
#[derive(Clone, Copy, Debug, PartialEq, Eq)]
pub enum CursorError {
    /// The hash bytes do not have the fixed block-hash length.
    InvalidHashLength,
}

/// The cursor `c` is the encoding of the block identity `id`.
pub open spec fn encodes(id: BlockId, c: Cursor) -> bool {
    c.height == id.height && c.hash@ == id.hash@
}

/// The block identity `b` is the decoding of the cursor `c`.
pub open spec fn decodes(c: Cursor, b: BlockId) -> bool {
    b.height == c.height && b.hash@ == c.hash@
}

/// Copies a byte vector; used to keep encode/decode free of aliasing.
fn clone_bytes(v: &Vec<u8>) -> (r: Vec<u8>)
    ensures
        r@ == v@,
{
    let mut r: Vec<u8> = Vec::new();
    let mut i: usize = 0;
    while i < v.len()
        invariant
            i <= v@.len(),
            r@ == v@.subrange(0, i as int),
        decreases v@.len() - i,
    {
        r.push(v[i]);
        i = i + 1;
    }
    proof {
        assert(v@.subrange(0, v@.len() as int) == v@);
    }
    r
}

/// Encodes a block identity as its wire cursor.
pub fn encode(id: &BlockId) -> (c: Cursor)
    ensures
        encodes(*id, c),
{
    Cursor { height: id.height, hash: clone_bytes(&id.hash) }
}

/// Decodes a wire cursor back into a block identity, rejecting hash bytes
/// of the wrong length.
pub fn decode(c: &Cursor) -> (r: Result<BlockId, CursorError>)
    ensures
        c.hash@.len() == BLOCK_HASH_LEN ==> (r matches Ok(b) && decodes(*c, b) && b.wf()),
        c.hash@.len() != BLOCK_HASH_LEN ==> (r matches Err(e) && e == CursorError::InvalidHashLength),
{
    if c.hash.len() == BLOCK_HASH_LEN {
        Ok(BlockId { height: c.height, hash: clone_bytes(&c.hash) })
    } else {
        Err(CursorError::InvalidHashLength)
    }
}

/// Every well-formed block identity survives the round trip through its
/// wire cursor: decoding the encoding yields the same block.
pub proof fn lemma_cursor_round_trip(id: BlockId, c: Cursor, b: BlockId)
    requires
        id.wf(),
        encodes(id, c),
        decodes(c, b),
    ensures
        b.same_block(id),
        b.wf(),
{
}

} // verus!
