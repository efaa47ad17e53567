use vstd::prelude::*;
use crate::block::SignedBeaconBlock;
use crate::chain_spec::{epoch_of, fork_at_epoch};
use crate::errors::{BeaconChainError, BlockError, BlockSlashInfo};
use crate::gossip::{GossipVerifiedBlock, ParentData};
use crate::hash::Hash256;
use crate::parent::{
    advance_spec, cheap_state_advance_to_obtain_committees, load_parent, load_parent_spec,
    PreProcessingSnapshot,
};
use crate::relevancy::{anchor_error, check_block_against_anchor_slot, ChainView};
use crate::signature::{
    all_valid, block_signatures_valid, first_unknown_signer, gather_error, validities,
    ConsensusContext, SignatureBatch,
};

verus! {

/// A block whose signatures, deposits aside, are all valid.
#[derive(Clone, Debug)]
pub struct SignatureVerifiedBlock {
    pub block: SignedBeaconBlock,
    pub block_root: Hash256,
    pub parent: Option<PreProcessingSnapshot>,
    pub consensus_context: ConsensusContext,
}

pub proof fn lemma_all_valid_concat(a: Seq<bool>, b: Seq<bool>)
    ensures
        all_valid(a + b) <==> all_valid(a) && all_valid(b),
{
    if all_valid(a + b) {
        assert forall|i: int| 0 <= i < a.len() implies #[trigger] a[i] by {
            assert((a + b)[i] == a[i]);
        }
        assert forall|i: int| 0 <= i < b.len() implies #[trigger] b[i] by {
            assert((a + b)[a.len() + i] == b[i]);
        }
    }
}

proof fn lemma_block_outcomes(prefix: Seq<bool>, block: SignedBeaconBlock)
    ensures
        all_valid(prefix.push(block.proposal_signature_valid) + validities(block.signature_sets@)) <==> all_valid(prefix)
            && block_signatures_valid(block),
{
    let one = seq![block.proposal_signature_valid];
    assert(prefix.push(block.proposal_signature_valid) =~= prefix + one);
    lemma_all_valid_concat(prefix + one, validities(block.signature_sets@));
    lemma_all_valid_concat(prefix, one);
    assert(all_valid(one) <==> block.proposal_signature_valid) by {
        assert(one[0] == block.proposal_signature_valid);
    }
}

/// The proposer the epoch's shuffling assigns to `slot`.
pub open spec fn proposer_at(proposers: Seq<u64>, slot: u64, slots_per_epoch: u64) -> Result<u64, BlockError> {
    let pos = slot % slots_per_epoch;
    if pos < proposers.len() {
        Ok(proposers[pos as int])
    } else {
        Err(BlockError::BeaconChainError(BeaconChainError::NoProposerForSlot(slot)))
    }
}

fn proposer_for_slot(proposers: &Vec<u64>, slot: u64, slots_per_epoch: u64) -> (r: Result<u64, BlockError>)
    requires
        slots_per_epoch > 0,
    ensures
        r == proposer_at(proposers@, slot, slots_per_epoch),
{
    let pos = slot % slots_per_epoch;
    if pos < proposers.len() as u64 {
        Ok(proposers[pos as usize])
    } else {
        Err(BlockError::BeaconChainError(BeaconChainError::NoProposerForSlot(slot)))
    }
}

/// The outcome of verifying all of a block's signatures from scratch: the
/// parent snapshot it was checked against, or the first check failed.
pub open spec fn signature_new_spec(
    chain: ChainView,
    block: SignedBeaconBlock,
    data: ParentData,
) -> Result<PreProcessingSnapshot, BlockError> {
    let slot = block.header.slot;
    let spe = chain.spec.slots_per_epoch;
    let expected_fork = fork_at_epoch(chain.spec, epoch_of(slot, spe));
    if block.fork != expected_fork {
        Err(BlockError::InconsistentFork { fork_at_slot: expected_fork, object_fork: block.fork })
    } else if anchor_error(chain, slot) is Some {
        Err(anchor_error(chain, slot)->0)
    } else {
        match load_parent_spec(block, chain, data.cached, data.stored) {
            Err(e) => Err(e),
            Ok(loaded) => match advance_spec(loaded.0.pre_state_slot, slot, spe) {
                Err(e) => Err(e),
                Ok(_) => match proposer_at(data.epoch_proposers@, slot, spe) {
                    Err(e) => Err(e),
                    Ok(p) => match gather_error(block, p, chain.validator_count) {
                        Some(e) => Err(e),
                        None => if block_signatures_valid(block) {
                            Ok(loaded.0)
                        } else {
                            Err(BlockError::InvalidSignature)
                        },
                    },
                },
            },
        }
    }
}

/// The outcome of finishing the signature checks of a gossip-verified block,
/// whose proposal signature is not checked again.
pub open spec fn from_gossip_spec(chain: ChainView, from: GossipVerifiedBlock, data: ParentData) -> Result<
    PreProcessingSnapshot,
    BlockError,
> {
    let slot = from.block.header.slot;
    let loaded: Result<PreProcessingSnapshot, BlockError> = match from.parent {
        Some(p) => Ok(p),
        None => match load_parent_spec(from.block, chain, data.cached, data.stored) {
            Ok(l) => Ok(l.0),
            Err(e) => Err(e),
        },
    };
    match loaded {
        Err(e) => Err(e),
        Ok(p) => match advance_spec(p.pre_state_slot, slot, chain.spec.slots_per_epoch) {
            Err(e) => Err(e),
            Ok(_) => match first_unknown_signer(from.block.signature_sets@, chain.validator_count) {
                Some(v) => Err(BlockError::BeaconChainError(BeaconChainError::ValidatorUnknown(v))),
                None => if all_valid(validities(from.block.signature_sets@)) {
                    Ok(p)
                } else {
                    Err(BlockError::InvalidSignature)
                },
            },
        },
    }
}

impl SignatureVerifiedBlock {
    /// Verifies every signature of the block, deposits aside, in one
    /// aggregate check against the parent's state.
    pub fn new(block: SignedBeaconBlock, block_root: Hash256, chain: &ChainView, data: ParentData) -> (r: Result<
        Self,
        BlockError,
    >)
        requires
            chain.wf(),
        ensures
            match signature_new_spec(*chain, block, data) {
                Err(e) => r == Err::<Self, BlockError>(e),
                Ok(p) => r == Ok::<Self, BlockError>(
                    SignatureVerifiedBlock {
                        block,
                        block_root,
                        parent: Some(p),
                        consensus_context: ConsensusContext {
                            slot: block.header.slot,
                            current_block_root: Some(block_root),
                            proposer_index: Some(block.header.proposer_index),
                        },
                    },
                ),
            },
    {
        let slot = block.slot();
        let spe = chain.spec.slots_per_epoch;
        let expected_fork = chain.spec.fork_name_at_slot(slot);
        if block.fork != expected_fork {
            return Err(BlockError::InconsistentFork { fork_at_slot: expected_fork, object_fork: block.fork });
        }
        check_block_against_anchor_slot(slot, chain)?;
        let (parent, block) = load_parent(block, chain, data.cached, data.stored)?;
        cheap_state_advance_to_obtain_committees(parent.pre_state_slot, slot, spe)?;
        let expected = proposer_for_slot(&data.epoch_proposers, slot, spe)?;
        let mut batch = SignatureBatch::new(chain.validator_count);
        let ghost empty = batch.outcomes@;
        let mut consensus_context = ConsensusContext::new(slot).set_current_block_root(block_root);
        batch.include_all_signatures(&block, expected, &mut consensus_context)?;
        proof {
            lemma_block_outcomes(empty, block);
        }
        assert(consensus_context == (ConsensusContext {
            slot: block.header.slot,
            current_block_root: Some(block_root),
            proposer_index: Some(block.header.proposer_index),
        }));
        if batch.verify() {
            Ok(SignatureVerifiedBlock { block, block_root, parent: Some(parent), consensus_context })
        } else {
            Err(BlockError::InvalidSignature)
        }
    }

    /// As `new`, with what the slasher may learn from a failure.
    pub fn check_slashable(block: SignedBeaconBlock, block_root: Hash256, chain: &ChainView, data: ParentData) -> (r:
        Result<Self, BlockSlashInfo<BlockError>>)
        requires
            chain.wf(),
        ensures
            match signature_new_spec(*chain, block, data) {
                Err(e) => r == Err::<Self, BlockSlashInfo<BlockError>>(
                    BlockSlashInfo::from_early_error_spec(block.signed_header_spec(), e),
                ),
                Ok(p) => r == Ok::<Self, BlockSlashInfo<BlockError>>(
                    SignatureVerifiedBlock {
                        block,
                        block_root,
                        parent: Some(p),
                        consensus_context: ConsensusContext {
                            slot: block.header.slot,
                            current_block_root: Some(block_root),
                            proposer_index: Some(block.header.proposer_index),
                        },
                    },
                ),
            },
    {
        let header = block.signed_block_header();
        match Self::new(block, block_root, chain, data) {
            Ok(v) => Ok(v),
            Err(e) => Err(BlockSlashInfo::from_early_error(header, e)),
        }
    }

    /// Finishes the signature checks of a gossip-verified block; its proposal
    /// signature and proposer index are not checked again.
    pub fn from_gossip_verified_block(from: GossipVerifiedBlock, chain: &ChainView, data: ParentData) -> (r: Result<
        Self,
        BlockError,
    >)
        requires
            chain.wf(),
        ensures
            match from_gossip_spec(*chain, from, data) {
                Err(e) => r == Err::<Self, BlockError>(e),
                Ok(p) => r == Ok::<Self, BlockError>(
                    SignatureVerifiedBlock {
                        block: from.block,
                        block_root: from.block_root,
                        parent: Some(p),
                        consensus_context: from.consensus_context,
                    },
                ),
            },
    {
        let (parent, block) = match from.parent {
            Some(p) => (p, from.block),
            None => {
                let (p, b) = load_parent(from.block, chain, data.cached, data.stored)?;
                (p, b)
            },
        };
        cheap_state_advance_to_obtain_committees(parent.pre_state_slot, block.slot(), chain.spec.slots_per_epoch)?;
        let mut batch = SignatureBatch::new(chain.validator_count);
        batch.include_all_signatures_except_proposal(&block)?;
        assert(batch.outcomes@ =~= validities(block.signature_sets@));
        if batch.verify() {
            Ok(
                SignatureVerifiedBlock {
                    block,
                    block_root: from.block_root,
                    parent: Some(parent),
                    consensus_context: from.consensus_context,
                },
            )
        } else {
            Err(BlockError::InvalidSignature)
        }
    }

    /// As `from_gossip_verified_block`, with what the slasher may learn from a
    /// failure.
    pub fn from_gossip_verified_block_check_slashable(
        from: GossipVerifiedBlock,
        chain: &ChainView,
        data: ParentData,
    ) -> (r: Result<Self, BlockSlashInfo<BlockError>>)
        requires
            chain.wf(),
        ensures
            match from_gossip_spec(*chain, from, data) {
                Err(e) => r == Err::<Self, BlockSlashInfo<BlockError>>(
                    BlockSlashInfo::from_early_error_spec(from.block.signed_header_spec(), e),
                ),
                Ok(p) => r matches Ok(v) && v.block == from.block && v.block_root == from.block_root
                    && v.parent == Some(p) && v.consensus_context == from.consensus_context,
            },
    {
        let header = from.block.signed_block_header();
        match Self::from_gossip_verified_block(from, chain, data) {
            Ok(v) => Ok(v),
            Err(e) => Err(BlockSlashInfo::from_early_error(header, e)),
        }
    }

    pub fn block_root(&self) -> (r: Hash256)
        ensures
            r == self.block_root,
    {
        self.block_root
    }
}

/// Why one block of a segment cannot join the batch, if it cannot.
pub open spec fn segment_block_error(chain: ChainView, data: ParentData, block: SignedBeaconBlock) -> Option<BlockError> {
    match proposer_at(data.epoch_proposers@, block.header.slot, chain.spec.slots_per_epoch) {
        Err(e) => Some(e),
        Ok(p) => gather_error(block, p, chain.validator_count),
    }
}

/// The first block of the segment that cannot join the batch, in order.
pub open spec fn first_segment_error(chain: ChainView, data: ParentData, blocks: Seq<(Hash256, SignedBeaconBlock)>) -> Option<
    BlockError,
>
    decreases blocks.len(),
{
    if blocks.len() == 0 {
        None
    } else {
        match segment_block_error(chain, data, blocks[0].1) {
            Some(e) => Some(e),
            None => first_segment_error(chain, data, blocks.drop_first()),
        }
    }
}

/// Whether every signature of every block of the segment verifies.
pub open spec fn segment_signatures_valid(blocks: Seq<(Hash256, SignedBeaconBlock)>) -> bool {
    forall|i: int| 0 <= i < blocks.len() ==> block_signatures_valid(#[trigger] blocks[i].1)
}

/// The outcome of verifying the signatures of a segment together: the parent
/// of its first block (none for an empty segment), or the first failure.
pub open spec fn segment_spec(chain: ChainView, data: ParentData, blocks: Seq<(Hash256, SignedBeaconBlock)>) -> Result<
    Option<PreProcessingSnapshot>,
    BlockError,
> {
    if blocks.len() == 0 {
        Ok(None)
    } else {
        match load_parent_spec(blocks[0].1, chain, data.cached, data.stored) {
            Err(e) => Err(e),
            Ok(loaded) => match advance_spec(
                loaded.0.pre_state_slot,
                blocks.last().1.header.slot,
                chain.spec.slots_per_epoch,
            ) {
                Err(e) => Err(e),
                Ok(_) => match first_segment_error(chain, data, blocks) {
                    Some(e) => Err(e),
                    None => if segment_signatures_valid(blocks) {
                        Ok(Some(loaded.0))
                    } else {
                        Err(BlockError::InvalidSignature)
                    },
                },
            },
        }
    }
}

/// The signature-verified form of the `i`th block of a segment.
pub open spec fn segment_entry_ok(v: SignatureVerifiedBlock, blocks: Seq<(Hash256, SignedBeaconBlock)>, i: int, first_parent: Option<PreProcessingSnapshot>) -> bool {
    &&& v.block == blocks[i].1
    &&& v.block_root == blocks[i].0
    &&& v.parent == (if i == 0 { first_parent } else { None })
    &&& v.consensus_context == (ConsensusContext {
        slot: blocks[i].1.header.slot,
        current_block_root: Some(blocks[i].0),
        proposer_index: Some(blocks[i].1.header.proposer_index),
    })
}

/// Verifies the signatures of a segment of blocks from one epoch in a single
/// aggregate check, against the parent of the first block advanced to the
/// slot of the last. If any signature is invalid the whole segment is
/// refused; which one is not known. The first block carries the loaded
/// parent; the others load theirs when they are imported.
pub fn signature_verify_chain_segment(
    chain_segment: Vec<(Hash256, SignedBeaconBlock)>,
    chain: &ChainView,
    data: ParentData,
) -> (r: Result<Vec<SignatureVerifiedBlock>, BlockError>)
    requires
        chain.wf(),
    ensures
        match segment_spec(*chain, data, chain_segment@) {
            Err(e) => r == Err::<Vec<SignatureVerifiedBlock>, BlockError>(e),
            Ok(p) => r matches Ok(v) && v@.len() == chain_segment@.len() && forall|i: int|
                0 <= i < v@.len() ==> segment_entry_ok(#[trigger] v@[i], chain_segment@, i, p),
        },
{
    let ghost segment = chain_segment@;
    let n = chain_segment.len();
    if n == 0 {
        return Ok(Vec::new());
    }
    let spe = chain.spec.slots_per_epoch;
    let highest_slot = chain_segment[n - 1].1.slot();
    let mut rest = chain_segment;
    let (first_root, first_block) = rest.remove(0);
    let (parent, first_block) = load_parent(first_block, chain, data.cached, data.stored)?;
    cheap_state_advance_to_obtain_committees(parent.pre_state_slot, highest_slot, spe)?;
    rest.insert(0, (first_root, first_block));
    assert(rest@ =~= segment);
    let mut batch = SignatureBatch::new(chain.validator_count);
    let mut out: Vec<SignatureVerifiedBlock> = Vec::new();
    let mut first_parent = Some(parent);
    while rest.len() > 0
        invariant
            chain.wf(),
            spe == chain.spec.slots_per_epoch,
            segment.len() > 0,
            segment == chain_segment@,
            load_parent_spec(segment[0].1, *chain, data.cached, data.stored) == Ok::<
                (PreProcessingSnapshot, SignedBeaconBlock),
                BlockError,
            >((parent, segment[0].1)),
            advance_spec(parent.pre_state_slot, segment.last().1.header.slot, spe) is Ok,
            batch.validator_count == chain.validator_count,
            out@.len() + rest@.len() == segment.len(),
            rest@ == segment.subrange(out@.len() as int, segment.len() as int),
            first_segment_error(*chain, data, segment) == first_segment_error(*chain, data, rest@),
            all_valid(batch.outcomes@) <==> forall|j: int|
                0 <= j < out@.len() ==> block_signatures_valid(#[trigger] segment[j].1),
            first_parent == (if out@.len() == 0 { Some(parent) } else { None::<PreProcessingSnapshot> }),
            forall|j: int| 0 <= j < out@.len() ==> segment_entry_ok(#[trigger] out@[j], segment, j, Some(parent)),
        decreases rest@.len(),
    {
        let ghost k = out@.len();
        let ghost before = rest@;
        let (block_root, block) = rest.remove(0);
        assert(before[0] == (block_root, block));
        assert(before[0] == segment[k as int]);
        assert(before.drop_first() =~= rest@);
        let expected = proposer_for_slot(&data.epoch_proposers, block.slot(), spe)?;
        let mut consensus_context = ConsensusContext::new(block.slot()).set_current_block_root(block_root);
        let ghost prefix = batch.outcomes@;
        batch.include_all_signatures(&block, expected, &mut consensus_context)?;
        proof {
            lemma_block_outcomes(prefix, block);
        }
        let parent_here = first_parent;
        first_parent = None;
        out.push(SignatureVerifiedBlock { block, block_root, parent: parent_here, consensus_context });
        assert(rest@ =~= segment.subrange(out@.len() as int, segment.len() as int));
        assert forall|j: int| 0 <= j < out@.len() implies block_signatures_valid(#[trigger] segment[j].1) == (
        if j < k {
            block_signatures_valid(segment[j].1)
        } else {
            block_signatures_valid(block)
        }) by {}
    }
    if batch.verify() {
        assert(segment_signatures_valid(segment)) by {
            assert forall|i: int| 0 <= i < segment.len() implies block_signatures_valid(#[trigger] segment[i].1) by {
                assert(0 <= i < out@.len());
            }
        }
        Ok(out)
    } else {
        assert(!segment_signatures_valid(segment)) by {
            let j = choose|j: int| 0 <= j < out@.len() && !block_signatures_valid(#[trigger] segment[j].1);
            assert(0 <= j < segment.len());
        }
        Err(BlockError::InvalidSignature)
    }
}

} // verus!
