use vstd::prelude::*;
use crate::block::SignedBeaconBlock;
use crate::chain_spec::{epoch_of, epoch_start_slot, slot_epoch, start_slot_of};
use crate::errors::{BeaconChainError, BlockError};
use crate::fork_choice::ProtoBlock;
use crate::hash::Hash256;
use crate::relevancy::ChainView;

verus! {

/// A block's parent and the state a block is applied to: the parent's
/// post-state, possibly advanced by some slots.
#[derive(Clone, Copy, Debug)]
pub struct PreProcessingSnapshot {
    pub beacon_block_root: Hash256,
    pub parent_slot: u64,
    /// The state root the parent block commits to.
    pub parent_state_root: Hash256,
    /// The slot of the pre-state.
    pub pre_state_slot: u64,
    /// The root of the pre-state, where it is known.
    pub beacon_state_root: Option<Hash256>,
}

/// A block as the store holds it.
#[derive(Clone, Copy, Debug)]
pub struct StoredBlock {
    pub slot: u64,
    pub state_root: Hash256,
}

/// A hot state as the store holds it.
#[derive(Clone, Copy, Debug)]
pub struct StoredState {
    pub root: Hash256,
    pub slot: u64,
}

/// What the store returned for a block's parent: the parent block and its
/// state advanced through to at most the child's slot.
#[derive(Clone, Copy, Debug)]
pub struct StoredParent {
    pub block: Option<StoredBlock>,
    pub state: Option<StoredState>,
}

/// Where the parent of a block comes from: the snapshot cache, or else the
/// store.
pub open spec fn load_parent_spec(
    block: SignedBeaconBlock,
    chain: ChainView,
    cached: Option<PreProcessingSnapshot>,
    stored: StoredParent,
) -> Result<(PreProcessingSnapshot, SignedBeaconBlock), BlockError> {
    let parent = block.header.parent_root;
    if !chain.fork_choice.contains_spec(parent@) {
        Err(BlockError::ParentUnknown(block))
    } else if cached is Some {
        Ok((cached->0, block))
    } else if stored.block is None {
        Err(BlockError::BeaconChainError(BeaconChainError::MissingBeaconBlock(parent)))
    } else if stored.state is None {
        Err(BlockError::BeaconChainError(BeaconChainError::MissingParentState(parent)))
    } else {
        Ok(
            (
                PreProcessingSnapshot {
                    beacon_block_root: parent,
                    parent_slot: stored.block->0.slot,
                    parent_state_root: stored.block->0.state_root,
                    pre_state_slot: stored.state->0.slot,
                    beacon_state_root: Some(stored.state->0.root),
                },
                block,
            ),
        )
    }
}

/// Loads the parent snapshot of `block`. The parent must be in fork choice;
/// the snapshot cache's answer is taken when there is one, else the store's.
/// A parent known to fork choice but missing from the store is an internal
/// error, not the peer's fault.
pub fn load_parent(
    block: SignedBeaconBlock,
    chain: &ChainView,
    cached: Option<PreProcessingSnapshot>,
    stored: StoredParent,
) -> (r: Result<(PreProcessingSnapshot, SignedBeaconBlock), BlockError>)
    ensures
        r == load_parent_spec(block, *chain, cached, stored),
{
    let parent = block.parent_root();
    if !chain.fork_choice.contains_block(&parent) {
        return Err(BlockError::ParentUnknown(block));
    }
    if let Some(snapshot) = cached {
        return Ok((snapshot, block));
    }
    let parent_block = match stored.block {
        Some(b) => b,
        None => return Err(BlockError::BeaconChainError(BeaconChainError::MissingBeaconBlock(parent))),
    };
    let parent_state = match stored.state {
        Some(s) => s,
        None => return Err(BlockError::BeaconChainError(BeaconChainError::MissingParentState(parent))),
    };
    Ok(
        (
            PreProcessingSnapshot {
                beacon_block_root: parent,
                parent_slot: parent_block.slot,
                parent_state_root: parent_block.state_root,
                pre_state_slot: parent_state.slot,
                beacon_state_root: Some(parent_state.root),
            },
            block,
        ),
    )
}

/// The parent of `block` as fork choice knows it, with the block handed back.
pub fn verify_parent_block_is_known(chain: &ChainView, block: SignedBeaconBlock) -> (r: Result<
    (ProtoBlock, SignedBeaconBlock),
    BlockError,
>)
    ensures
        match chain.fork_choice.get_spec(block.header.parent_root@) {
            Some(p) => r == Ok::<(ProtoBlock, SignedBeaconBlock), BlockError>((p, block)),
            None => r == Err::<(ProtoBlock, SignedBeaconBlock), BlockError>(
                BlockError::ParentUnknown(block),
            ),
        },
{
    match chain.fork_choice.get_block(&block.parent_root()) {
        Some(p) => Ok((p, block)),
        None => Err(BlockError::ParentUnknown(block)),
    }
}

/// How a state is brought to where it can answer committee and proposer
/// queries for a block's epoch.
#[derive(Clone, Copy, Debug, PartialEq, Eq, Structural)]
pub enum StateAdvance {
    /// The state is already in the block's epoch: build its caches in place.
    InPlace,
    /// Advance a copy, without state roots, to this slot: the first of the
    /// block's epoch.
    CopyAdvancedTo(u64),
}

pub open spec fn advance_spec(state_slot: u64, block_slot: u64, slots_per_epoch: u64) -> Result<StateAdvance, BlockError> {
    let block_epoch = epoch_of(block_slot, slots_per_epoch);
    if epoch_of(state_slot, slots_per_epoch) == block_epoch {
        Ok(StateAdvance::InPlace)
    } else if state_slot > block_slot {
        Err(BlockError::BlockIsNotLaterThanParent { block_slot, parent_slot: state_slot })
    } else {
        Ok(StateAdvance::CopyAdvancedTo(start_slot_of(block_epoch, slots_per_epoch)))
    }
}

/// Decides how a state at `state_slot` is made to serve the committees of
/// `block_slot` without leaving the original in an invalid condition.
pub fn cheap_state_advance_to_obtain_committees(state_slot: u64, block_slot: u64, slots_per_epoch: u64) -> (r:
    Result<StateAdvance, BlockError>)
    requires
        slots_per_epoch > 0,
    ensures
        r == advance_spec(state_slot, block_slot, slots_per_epoch),
        r matches Ok(StateAdvance::CopyAdvancedTo(t)) ==> state_slot < t <= block_slot,
{
    let block_epoch = slot_epoch(block_slot, slots_per_epoch);
    if slot_epoch(state_slot, slots_per_epoch) == block_epoch {
        Ok(StateAdvance::InPlace)
    } else if state_slot > block_slot {
        Err(BlockError::BlockIsNotLaterThanParent { block_slot, parent_slot: state_slot })
    } else {
        let target = epoch_start_slot(block_epoch, slots_per_epoch);
        proof {
            let e = block_slot / slots_per_epoch;
            assert(e * slots_per_epoch <= block_slot) by (nonlinear_arith)
                requires
                    e == block_slot / slots_per_epoch,
                    slots_per_epoch > 0,
            ;
            assert(state_slot < e * slots_per_epoch) by (nonlinear_arith)
                requires
                    e == block_slot / slots_per_epoch,
                    state_slot / slots_per_epoch != e,
                    state_slot <= block_slot,
                    slots_per_epoch > 0,
            ;
        }
        Ok(StateAdvance::CopyAdvancedTo(target))
    }
}

} // verus!
