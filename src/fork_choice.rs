use vstd::prelude::*;
use crate::hash::Hash256;

verus! {

/// What fork choice knows of a block.
#[derive(Clone, Copy, Debug)]
pub struct ProtoBlock {
    pub root: Hash256,
    pub slot: u64,
    /// The block that decided the proposer shuffling of the epoch after
    /// this block's epoch.
    pub next_epoch_shuffling_decision_root: Hash256,
    /// Whether the execution engine found the block's payload invalid.
    pub execution_invalid: bool,
    /// Whether the block is the finalized checkpoint or descends from it.
    pub finalized_descendant: bool,
}

/// The blocks held by fork choice.
#[derive(Clone, Debug)]
pub struct ForkChoiceView {
    pub blocks: Vec<ProtoBlock>,
}

/// The last block of `blocks` whose root is `root`.
pub open spec fn lookup(blocks: Seq<ProtoBlock>, root: Seq<u8>) -> Option<ProtoBlock>
    decreases blocks.len(),
{
    if blocks.len() == 0 {
        None
    } else if blocks.last().root@ == root {
        Some(blocks.last())
    } else {
        lookup(blocks.drop_last(), root)
    }
}

impl ForkChoiceView {
    pub open spec fn get_spec(&self, root: Seq<u8>) -> Option<ProtoBlock> {
        lookup(self.blocks@, root)
    }

    pub open spec fn contains_spec(&self, root: Seq<u8>) -> bool {
        self.get_spec(root) is Some
    }

    /// Whether fork choice holds `root` as the finalized checkpoint or one of
    /// its descendants.
    pub open spec fn finalized_descendant_spec(&self, root: Seq<u8>) -> bool {
        match self.get_spec(root) {
            Some(b) => b.finalized_descendant,
            None => false,
        }
    }

    /// The block with root `root`, if fork choice holds it.
    pub fn get_block(&self, root: &Hash256) -> (r: Option<ProtoBlock>)
        ensures
            r == self.get_spec(root@),
    {
        let mut i: usize = self.blocks.len();
        assert(self.blocks@.subrange(0, i as int) =~= self.blocks@);
        while i > 0
            invariant
                i <= self.blocks.len(),
                lookup(self.blocks@, root@) == lookup(self.blocks@.subrange(0, i as int), root@),
            decreases i,
        {
            let b = self.blocks[i - 1];
            let ghost pre = self.blocks@.subrange(0, i as int);
            assert(pre.last() == b);
            assert(pre.drop_last() =~= self.blocks@.subrange(0, i - 1));
            if b.root.same(root) {
                return Some(b);
            }
            i = i - 1;
        }
        None
    }

    pub fn contains_block(&self, root: &Hash256) -> (r: bool)
        ensures
            r == self.contains_spec(root@),
    {
        self.get_block(root).is_some()
    }

    pub fn is_finalized_checkpoint_or_descendant(&self, root: &Hash256) -> (r: bool)
        ensures
            r == self.finalized_descendant_spec(root@),
    {
        match self.get_block(root) {
            Some(b) => b.finalized_descendant,
            None => false,
        }
    }
}

} // verus!
