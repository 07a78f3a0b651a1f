use super::ByteCount;
use vstd::prelude::*;

verus! {

/// The sum of a sequence of sizes.
pub open spec fn total(sizes: Seq<int>) -> int
    decreases sizes.len(),
{
    if sizes.len() == 0 {
        0
    } else {
        total(sizes.drop_last()) + sizes.last()
    }
}

/// A total of sizes is never negative.
pub proof fn lemma_total_nonnegative(sizes: Seq<int>)
    requires
        forall|i: int| 0 <= i < sizes.len() ==> sizes[i] >= 0,
    ensures
        total(sizes) >= 0,
    decreases sizes.len(),
{
    if sizes.len() > 0 {
        lemma_total_nonnegative(sizes.drop_last());
    }
}

/// A total as a `u64` size that saturates at `u64::MAX`.
pub open spec fn saturated(t: int) -> u64 {
    if t > u64::MAX {
        u64::MAX
    } else {
        t as u64
    }
}

/// Scrollback is the set of session contents that weren't shared live
/// but are still part of the shared session.
#[derive(Clone)]
pub struct Scrollback {
    /// The blocks that make up the scrollback. Clients are expected
    /// to be able to serialize and deserialize accordingly.
    pub blocks: Vec<ScrollbackBlock>,
    /// True iff the session is in alt-screen mode
    /// at time of share.
    pub is_alt_screen_active: bool,
}

/// The sizes of the blocks' raw contents.
pub open spec fn block_sizes(blocks: Seq<ScrollbackBlock>) -> Seq<int> {
    blocks.map_values(|b: ScrollbackBlock| b.raw@.len() as int)
}

impl Scrollback {
    /// The size of all blocks together, saturating at `u64::MAX`.
    pub fn num_bytes(&self) -> (r: ByteCount)
        ensures
            r@ == saturated(total(block_sizes(self.blocks@))),
    {
        let mut acc: u64 = 0;
        let mut i: usize = 0;
        while i < self.blocks.len()
            invariant
                i <= self.blocks@.len(),
                acc == saturated(total(block_sizes(self.blocks@.subrange(0, i as int)))),
            decreases self.blocks@.len() - i,
        {
            let ghost prefix = self.blocks@.subrange(0, i as int);
            let ghost next = self.blocks@.subrange(0, i + 1);
            let n = self.blocks[i].num_bytes().as_u64();
            assert(total(block_sizes(next)) == total(block_sizes(prefix)) + n) by {
                assert(block_sizes(next).drop_last() =~= block_sizes(prefix));
            }
            proof {
                lemma_total_nonnegative(block_sizes(prefix));
            }
            acc = acc.saturating_add(n);
            i = i + 1;
        }
        assert(self.blocks@.subrange(0, i as int) =~= self.blocks@);
        ByteCount::from_u64(acc)
    }

    /// Returns true if the scrollback size exceeds `size_bytes`.
    pub fn exceeds_size_bytes(&self, size_bytes: ByteCount) -> (r: bool)
        ensures
            r == (saturated(total(block_sizes(self.blocks@))) > size_bytes@),
    {
        self.num_bytes().exceeds(size_bytes)
    }
}

/// Scrollback with no blocks has size zero, and appending a block adds the length of its raw
/// contents to the total.
pub proof fn lemma_block_adds_its_length(blocks: Seq<ScrollbackBlock>, block: ScrollbackBlock)
    ensures
        total(block_sizes(Seq::<ScrollbackBlock>::empty())) == 0,
        total(block_sizes(blocks.push(block))) == total(block_sizes(blocks)) + block.raw@.len(),
{
    assert(block_sizes(Seq::<ScrollbackBlock>::empty()) =~= Seq::<int>::empty());
    assert(block_sizes(blocks.push(block)).drop_last() =~= block_sizes(blocks));
}

/// An individual scrollback block.
#[derive(Clone)]
pub struct ScrollbackBlock {
    /// The raw contents of the block. Clients are expected to be able to
    /// serialize and deserialize it as a block in the Warp client.
    pub raw: Vec<u8>,
}

impl ScrollbackBlock {
    pub fn num_bytes(&self) -> (r: ByteCount)
        ensures
            r@ == self.raw@.len(),
    {
        ByteCount::from_usize(self.raw.len())
    }
}

} // verus!
