use vstd::prelude::*;
use crate::block::{header_root, SignedBeaconBlock};
use crate::chain_spec::{start_slot_of, epoch_start_slot, ChainSpec, MAXIMUM_BLOCK_SLOT_NUMBER};
use crate::clock::SlotClock;
use crate::errors::{BeaconChainError, BlockError};
use crate::fork_choice::ForkChoiceView;
use crate::hash::Hash256;

verus! {

/// What the pipeline reads of the chain while it verifies one block.
#[derive(Clone, Debug)]
pub struct ChainView {
    pub spec: ChainSpec,
    pub clock: SlotClock,
    pub finalized_epoch: u64,
    /// The slot of the weak subjectivity anchor, if the node started from one.
    pub anchor_slot: Option<u64>,
    pub fork_choice: ForkChoiceView,
    /// Roots of the blocks in the store.
    pub stored_blocks: Vec<Hash256>,
    /// How many validators the public key cache knows.
    pub validator_count: u64,
}

impl ChainView {
    pub open spec fn wf(&self) -> bool {
        self.spec.wf() && self.clock.wf()
    }

    pub open spec fn finalized_slot_spec(&self) -> u64 {
        start_slot_of(self.finalized_epoch, self.spec.slots_per_epoch)
    }

    pub open spec fn stored_spec(&self, root: Seq<u8>) -> bool {
        exists|i: int| 0 <= i < self.stored_blocks.len() && (#[trigger] self.stored_blocks@[i])@ == root
    }

    /// The first slot of the finalized epoch.
    pub fn finalized_slot(&self) -> (r: u64)
        ensures
            r == self.finalized_slot_spec(),
    {
        epoch_start_slot(self.finalized_epoch, self.spec.slots_per_epoch)
    }

    /// Whether the store holds the block `root`.
    pub fn block_exists(&self, root: &Hash256) -> (r: bool)
        ensures
            r == self.stored_spec(root@),
    {
        let mut i: usize = 0;
        while i < self.stored_blocks.len()
            invariant
                i <= self.stored_blocks.len(),
                forall|j: int| 0 <= j < i ==> (#[trigger] self.stored_blocks@[j])@ != root@,
            decreases self.stored_blocks.len() - i,
        {
            if self.stored_blocks[i].same(root) {
                return true;
            }
            i = i + 1;
        }
        false
    }
}

pub open spec fn anchor_error(chain: ChainView, slot: u64) -> Option<BlockError> {
    match chain.anchor_slot {
        Some(a) => if slot <= a {
            Some(BlockError::WeakSubjectivityConflict)
        } else {
            None
        },
        None => None,
    }
}

pub open spec fn finalized_error(chain: ChainView, slot: u64) -> Option<BlockError> {
    if slot <= chain.finalized_slot_spec() {
        Some(BlockError::WouldRevertFinalizedSlot { block_slot: slot, finalized_slot: chain.finalized_slot_spec() })
    } else {
        None
    }
}

pub open spec fn as_result(e: Option<BlockError>) -> Result<(), BlockError> {
    match e {
        Some(e) => Err(e),
        None => Ok(()),
    }
}

/// Refuses a block at or before the weak subjectivity anchor.
pub fn check_block_against_anchor_slot(slot: u64, chain: &ChainView) -> (r: Result<(), BlockError>)
    ensures
        r == as_result(anchor_error(*chain, slot)),
{
    if let Some(anchor_slot) = chain.anchor_slot {
        if slot <= anchor_slot {
            return Err(BlockError::WeakSubjectivityConflict);
        }
    }
    Ok(())
}

/// Refuses a block at or before the first slot of the finalized epoch.
pub fn check_block_against_finalized_slot(slot: u64, chain: &ChainView) -> (r: Result<(), BlockError>)
    ensures
        r == as_result(finalized_error(*chain, slot)),
{
    let finalized_slot = chain.finalized_slot();
    if slot <= finalized_slot {
        Err(BlockError::WouldRevertFinalizedSlot { block_slot: slot, finalized_slot })
    } else {
        Ok(())
    }
}

/// Whether the block's parent is the finalized checkpoint or descends from
/// it; if not, whether the parent is stored (and so conflicts with
/// finalization) or unknown.
pub open spec fn descendant_check(chain: ChainView, block: SignedBeaconBlock) -> Result<SignedBeaconBlock, BlockError> {
    let parent = block.header.parent_root;
    if chain.fork_choice.finalized_descendant_spec(parent@) {
        Ok(block)
    } else if chain.stored_spec(parent@) {
        Err(BlockError::NotFinalizedDescendant { block_parent_root: parent })
    } else {
        Err(BlockError::ParentUnknown(block))
    }
}

/// Accepts a block whose parent is the finalized checkpoint or one of its
/// descendants, handing the block back.
pub fn check_block_is_finalized_checkpoint_or_descendant(chain: &ChainView, block: SignedBeaconBlock) -> (r:
    Result<SignedBeaconBlock, BlockError>)
    ensures
        r == descendant_check(*chain, block),
{
    let parent = block.parent_root();
    if chain.fork_choice.is_finalized_checkpoint_or_descendant(&parent) {
        Ok(block)
    } else if chain.block_exists(&parent) {
        Err(BlockError::NotFinalizedDescendant { block_parent_root: parent })
    } else {
        Err(BlockError::ParentUnknown(block))
    }
}

/// The first of the cheap relevancy checks that the block fails, in the order
/// they are made.
pub open spec fn relevancy_error(chain: ChainView, slot: u64, root: Seq<u8>) -> Option<BlockError> {
    match chain.clock.now_spec() {
        None => Some(BlockError::BeaconChainError(BeaconChainError::UnableToReadSlot)),
        Some(present) => if slot > present {
            Some(BlockError::FutureSlot { present_slot: present, block_slot: slot })
        } else if slot == 0 {
            Some(BlockError::GenesisBlock)
        } else if slot >= MAXIMUM_BLOCK_SLOT_NUMBER {
            Some(BlockError::BlockSlotLimitReached)
        } else if finalized_error(chain, slot) is Some {
            finalized_error(chain, slot)
        } else if chain.fork_choice.contains_spec(root) {
            Some(BlockError::BlockIsAlreadyKnown)
        } else {
            None
        },
    }
}

/// Cheap checks that the block is worth verifying at all: not from the
/// future, not genesis, under the slot limit, after finalization and not
/// already in fork choice. Hands the root back on success.
pub fn check_block_relevancy(block: &SignedBeaconBlock, block_root: Hash256, chain: &ChainView) -> (r:
    Result<Hash256, BlockError>)
    requires
        chain.wf(),
    ensures
        match relevancy_error(*chain, block.header.slot, block_root@) {
            Some(e) => r == Err::<Hash256, BlockError>(e),
            None => r == Ok::<Hash256, BlockError>(block_root),
        },
{
    let slot = block.slot();
    let present_slot = match chain.clock.now() {
        Some(s) => s,
        None => return Err(BlockError::BeaconChainError(BeaconChainError::UnableToReadSlot)),
    };
    if slot > present_slot {
        return Err(BlockError::FutureSlot { present_slot, block_slot: slot });
    }
    if slot == 0 {
        return Err(BlockError::GenesisBlock);
    }
    if slot >= MAXIMUM_BLOCK_SLOT_NUMBER {
        return Err(BlockError::BlockSlotLimitReached);
    }
    check_block_against_finalized_slot(slot, chain)?;
    if chain.fork_choice.contains_block(&block_root) {
        return Err(BlockError::BlockIsAlreadyKnown);
    }
    Ok(block_root)
}

/// The root of `block`, computed once per block and carried through the
/// later stages.
pub fn get_block_root(block: &SignedBeaconBlock) -> (r: Hash256)
    ensures
        r@ == header_root(block.header),
{
    block.canonical_root()
}

} // verus!
