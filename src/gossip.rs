use vstd::prelude::*;
use crate::block::{header_root, SignedBeaconBlock};
use crate::block::BeaconBlockHeader;
use crate::caches::{cached_proposer, BeaconProposerCache, ProposerCacheEntry, Slasher};
use crate::chain_spec::ChainSpec;
use crate::chain_spec::{epoch_of, fork_at_epoch, slot_epoch};
use crate::errors::{BeaconChainError, BlockError, BlockSlashInfo, ExecutionPayloadError};
use crate::fork_choice::ProtoBlock;
use crate::hash::Hash256;
use crate::observed::{seen_outcome, ObservedBlockProducers, SeenBlock};
use crate::parent::{
    advance_spec, cheap_state_advance_to_obtain_committees, load_parent, load_parent_spec,
    verify_parent_block_is_known, PreProcessingSnapshot, StateAdvance, StoredParent,
};
use crate::relevancy::{
    anchor_error, check_block_against_anchor_slot, check_block_against_finalized_slot,
    check_block_is_finalized_checkpoint_or_descendant, descendant_check, finalized_error,
    get_block_root, ChainView,
};
use crate::signature::ConsensusContext;
use crate::slash::{process_block_slash_info, slashable_header, slasher_after};

verus! {

/// A block that may be re-gossiped: its parent is known, its proposer
/// signature is valid, it is the proposer's first block at its slot and it
/// does not conflict with finalization.
#[derive(Clone, Debug)]
pub struct GossipVerifiedBlock {
    pub block: SignedBeaconBlock,
    pub block_root: Hash256,
    /// The parent snapshot, where it had to be loaded to learn the proposer.
    pub parent: Option<PreProcessingSnapshot>,
    pub consensus_context: ConsensusContext,
}

/// What the snapshot cache, the store and the state transition give for a
/// block's parent, in case the proposer shuffling has to be computed.
#[derive(Clone, Debug)]
pub struct ParentData {
    pub cached: Option<PreProcessingSnapshot>,
    pub stored: StoredParent,
    /// The proposer of each slot of the block's epoch, read from the parent
    /// state advanced into that epoch.
    pub epoch_proposers: Vec<u64>,
}

/// The first of the checks made before the proposer is looked up that the
/// block fails, in order; otherwise the parent as fork choice knows it.
pub open spec fn gossip_precheck(chain: ChainView, block: SignedBeaconBlock) -> Result<ProtoBlock, BlockError> {
    let slot = block.header.slot;
    let spe = chain.spec.slots_per_epoch;
    let expected_fork = fork_at_epoch(chain.spec, epoch_of(slot, spe));
    let parent = chain.fork_choice.get_spec(block.header.parent_root@);
    if block.fork != expected_fork {
        Err(BlockError::InconsistentFork { fork_at_slot: expected_fork, object_fork: block.fork })
    } else if chain.clock.now_with_tolerance_spec(chain.spec.maximum_gossip_clock_disparity_ms) is None {
        Err(BlockError::BeaconChainError(BeaconChainError::UnableToReadSlot))
    } else if slot > chain.clock.now_with_tolerance_spec(chain.spec.maximum_gossip_clock_disparity_ms)->0 {
        Err(
            BlockError::FutureSlot {
                present_slot: chain.clock.now_with_tolerance_spec(
                    chain.spec.maximum_gossip_clock_disparity_ms,
                )->0,
                block_slot: slot,
            },
        )
    } else if finalized_error(chain, slot) is Some {
        Err(finalized_error(chain, slot)->0)
    } else if anchor_error(chain, slot) is Some {
        Err(anchor_error(chain, slot)->0)
    } else if chain.fork_choice.contains_spec(header_root(block.header)) {
        Err(BlockError::BlockIsAlreadyKnown)
    } else if descendant_check(chain, block) is Err {
        Err(descendant_check(chain, block)->Err_0)
    } else if parent is None {
        Err(BlockError::ParentUnknown(block))
    } else if parent->0.slot >= slot {
        Err(BlockError::BlockIsNotLaterThanParent { block_slot: slot, parent_slot: parent->0.slot })
    } else {
        Ok(parent->0)
    }
}

/// The checks of the gossip stage made before the proposer is looked up.
/// Hands back the parent, the block and its root.
fn gossip_prechecks(block: SignedBeaconBlock, chain: &ChainView) -> (r: Result<
    (ProtoBlock, SignedBeaconBlock, Hash256),
    BlockError,
>)
    requires
        chain.wf(),
    ensures
        match gossip_precheck(*chain, block) {
            Ok(p) => r matches Ok(v) && v.0 == p && v.1 == block && v.2@ == header_root(block.header),
            Err(e) => r == Err::<(ProtoBlock, SignedBeaconBlock, Hash256), BlockError>(e),
        },
{
    let slot = block.slot();
    let expected_fork = chain.spec.fork_name_at_slot(slot);
    if block.fork != expected_fork {
        return Err(BlockError::InconsistentFork { fork_at_slot: expected_fork, object_fork: block.fork });
    }
    let present_slot = match chain.clock.now_with_future_tolerance(
        chain.spec.maximum_gossip_clock_disparity_ms,
    ) {
        Some(s) => s,
        None => return Err(BlockError::BeaconChainError(BeaconChainError::UnableToReadSlot)),
    };
    if slot > present_slot {
        return Err(BlockError::FutureSlot { present_slot, block_slot: slot });
    }
    let block_root = get_block_root(&block);
    check_block_against_finalized_slot(slot, chain)?;
    check_block_against_anchor_slot(slot, chain)?;
    if chain.fork_choice.contains_block(&block_root) {
        return Err(BlockError::BlockIsAlreadyKnown);
    }
    let block = check_block_is_finalized_checkpoint_or_descendant(chain, block)?;
    let (parent, block) = verify_parent_block_is_known(chain, block)?;
    if parent.slot >= block.slot() {
        return Err(BlockError::BlockIsNotLaterThanParent { block_slot: block.slot(), parent_slot: parent.slot });
    }
    Ok((parent, block, block_root))
}

/// The block whose state decided the proposer shuffling of `slot`'s epoch.
pub open spec fn decision_root_spec(parent: ProtoBlock, slot: u64, slots_per_epoch: u64) -> Hash256 {
    if epoch_of(parent.slot, slots_per_epoch) == epoch_of(slot, slots_per_epoch) {
        parent.next_epoch_shuffling_decision_root
    } else {
        parent.root
    }
}

/// The proposer the shuffling assigns to the block's slot: from the cache
/// where it holds the shuffling, else from the parent, which is then loaded.
pub open spec fn expected_proposer_spec(
    chain: ChainView,
    cache: Seq<ProposerCacheEntry>,
    block: SignedBeaconBlock,
    parent: ProtoBlock,
    data: ParentData,
) -> Result<(u64, Option<PreProcessingSnapshot>), BlockError> {
    let slot = block.header.slot;
    let spe = chain.spec.slots_per_epoch;
    let pos = slot % spe;
    match cached_proposer(cache, epoch_of(slot, spe), decision_root_spec(parent, slot, spe)@, pos as int) {
        Some(p) => Ok((p, None)),
        None => match load_parent_spec(block, chain, data.cached, data.stored) {
            Err(e) => Err(e),
            Ok(loaded) => match advance_spec(loaded.0.pre_state_slot, slot, spe) {
                Err(e) => Err(e),
                Ok(_) => if pos < data.epoch_proposers.len() {
                    Ok((data.epoch_proposers@[pos as int], Some(loaded.0)))
                } else {
                    Err(BlockError::BeaconChainError(BeaconChainError::NoProposerForSlot(slot)))
                },
            },
        },
    }
}

/// Whether the shuffling had to be computed, and so was added to the cache.
pub open spec fn shuffling_computed(
    chain: ChainView,
    cache: Seq<ProposerCacheEntry>,
    block: SignedBeaconBlock,
    parent: ProtoBlock,
    data: ParentData,
) -> bool {
    expected_proposer_spec(chain, cache, block, parent, data) matches Ok(v) && v.1 is Some
}

/// Looks up the proposer of the block's slot, priming the cache when it had
/// to be computed.
fn expected_proposer(
    block: SignedBeaconBlock,
    parent: &ProtoBlock,
    chain: &ChainView,
    cache: &mut BeaconProposerCache,
    data: ParentData,
) -> (r: Result<(u64, Option<PreProcessingSnapshot>, SignedBeaconBlock), BlockError>)
    requires
        chain.wf(),
    ensures
        match expected_proposer_spec(*chain, old(cache).entries@, block, *parent, data) {
            Ok(v) => r matches Ok(w) && w.0 == v.0 && w.1 == v.1 && w.2 == block,
            Err(e) => r == Err::<(u64, Option<PreProcessingSnapshot>, SignedBeaconBlock), BlockError>(e),
        },
        shuffling_computed(*chain, old(cache).entries@, block, *parent, data) ==> final(cache).entries@
            == old(cache).entries@.push(
            ProposerCacheEntry {
                epoch: epoch_of(block.header.slot, chain.spec.slots_per_epoch),
                decision_root: decision_root_spec(*parent, block.header.slot, chain.spec.slots_per_epoch),
                proposers: data.epoch_proposers,
            },
        ),
        !shuffling_computed(*chain, old(cache).entries@, block, *parent, data) ==> final(cache).entries@
            == old(cache).entries@,
{
    let slot = block.slot();
    let spe = chain.spec.slots_per_epoch;
    let block_epoch = slot_epoch(slot, spe);
    let decision_root = if slot_epoch(parent.slot, spe) == block_epoch {
        parent.next_epoch_shuffling_decision_root
    } else {
        parent.root
    };
    if let Some(p) = cache.get_slot(&decision_root, slot, spe) {
        return Ok((p, None, block));
    }
    let (snapshot, block) = load_parent(block, chain, data.cached, data.stored)?;
    let _advance: StateAdvance = cheap_state_advance_to_obtain_committees(snapshot.pre_state_slot, slot, spe)?;
    let pos = slot % spe;
    if pos >= data.epoch_proposers.len() as u64 {
        return Err(BlockError::BeaconChainError(BeaconChainError::NoProposerForSlot(slot)));
    }
    let proposer = data.epoch_proposers[pos as usize];
    cache.insert(block_epoch, decision_root, data.epoch_proposers);
    Ok((proposer, Some(snapshot), block))
}

/// The block's payload timestamp must be the time of its slot.
pub open spec fn payload_gossip_error(spec: ChainSpec, block: SignedBeaconBlock) -> Option<BlockError> {
    match block.execution_payload {
        None => None,
        Some(p) => {
            let t = spec.genesis_time + block.header.slot * spec.seconds_per_slot;
            if t > u64::MAX {
                Some(BlockError::BeaconChainError(BeaconChainError::ArithOverflow))
            } else if p.timestamp != t {
                Some(
                    BlockError::ExecutionPayloadError(
                        ExecutionPayloadError::InvalidPayloadTimestamp { expected: t as u64, found: p.timestamp },
                    ),
                )
            } else {
                None
            }
        },
    }
}

/// The gossip checks on a block's execution payload that need no execution
/// engine.
pub fn validate_execution_payload_for_gossip(spec: &ChainSpec, block: &SignedBeaconBlock) -> (r: Result<(), BlockError>)
    ensures
        r == crate::relevancy::as_result(payload_gossip_error(*spec, *block)),
{
    match &block.execution_payload {
        None => Ok(()),
        Some(p) => {
            let offset = match block.header.slot.checked_mul(spec.seconds_per_slot) {
                Some(o) => o,
                None => return Err(BlockError::BeaconChainError(BeaconChainError::ArithOverflow)),
            };
            let expected = match spec.genesis_time.checked_add(offset) {
                Some(t) => t,
                None => return Err(BlockError::BeaconChainError(BeaconChainError::ArithOverflow)),
            };
            if p.timestamp != expected {
                Err(
                    BlockError::ExecutionPayloadError(
                        ExecutionPayloadError::InvalidPayloadTimestamp { expected, found: p.timestamp },
                    ),
                )
            } else {
                Ok(())
            }
        },
    }
}

/// The first check after the proposer lookup that the block fails, in
/// order: known signer, proposer signature, first sighting of the proposal,
/// proposer index, payload.
pub open spec fn gossip_post_error(
    chain: ChainView,
    observed: ObservedBlockProducers,
    block: SignedBeaconBlock,
    expected: u64,
) -> Option<BlockError> {
    let h = block.header;
    let seen = seen_outcome(observed.seen(h.slot, h.proposer_index), header_root(h));
    if h.proposer_index >= chain.validator_count {
        Some(BlockError::UnknownValidator(h.proposer_index))
    } else if !block.proposal_signature_valid {
        Some(BlockError::ProposalSignatureInvalid)
    } else if observed.check_spec(h) is Err {
        Some(BlockError::BeaconChainError(BeaconChainError::ObserveProposal(observed.check_spec(h)->Err_0)))
    } else if seen == SeenBlock::Slashable {
        Some(BlockError::Slashable)
    } else if seen == SeenBlock::Duplicate {
        Some(BlockError::BlockIsAlreadyKnown)
    } else if h.proposer_index != expected {
        Some(BlockError::IncorrectBlockProposer { block: h.proposer_index, local_shuffling: expected })
    } else {
        payload_gossip_error(chain.spec, block)
    }
}

/// The outcome of the gossip stage: the expected proposer and the parent
/// snapshot loaded on the way, or the first check failed.
pub open spec fn gossip_spec(
    chain: ChainView,
    observed: ObservedBlockProducers,
    cache: Seq<ProposerCacheEntry>,
    block: SignedBeaconBlock,
    data: ParentData,
) -> Result<(u64, Option<PreProcessingSnapshot>), BlockError> {
    match gossip_precheck(chain, block) {
        Err(e) => Err(e),
        Ok(parent) => match expected_proposer_spec(chain, cache, block, parent, data) {
            Err(e) => Err(e),
            Ok(v) => match gossip_post_error(chain, observed, block, v.0) {
                Some(e) => Err(e),
                None => Ok(v),
            },
        },
    }
}

/// Whether the gossip stage gets as far as recording the proposal: every
/// earlier check passed and the proposer signature is valid.
pub open spec fn gossip_observes(
    chain: ChainView,
    observed: ObservedBlockProducers,
    cache: Seq<ProposerCacheEntry>,
    block: SignedBeaconBlock,
    data: ParentData,
) -> bool {
    &&& gossip_precheck(chain, block) is Ok
    &&& expected_proposer_spec(chain, cache, block, gossip_precheck(chain, block)->Ok_0, data) is Ok
    &&& block.header.proposer_index < chain.validator_count
    &&& block.proposal_signature_valid
    &&& observed.check_spec(block.header) is Ok
}

/// `after` is `before` with the proposal of `root` recorded at the header's
/// proposer and slot.
pub open spec fn records_proposal(
    before: ObservedBlockProducers,
    after: ObservedBlockProducers,
    h: BeaconBlockHeader,
    root: Seq<u8>,
) -> bool {
    &&& after.finalized_slot == before.finalized_slot
    &&& after.validator_limit == before.validator_limit
    &&& after.seen(h.slot, h.proposer_index) == before.seen(h.slot, h.proposer_index).insert(root)
    &&& forall|s: u64, p: u64|
        !(s == h.slot && p == h.proposer_index) ==> after.seen(s, p) == before.seen(s, p)
}

/// `g` is the gossip-verified form of `block`: it carries the block, its
/// root, the parent loaded on the way, and a context holding the root and
/// the proposer.
pub open spec fn gossip_output(block: SignedBeaconBlock, parent: Option<PreProcessingSnapshot>, g: GossipVerifiedBlock) -> bool {
    &&& g.block == block
    &&& g.block_root@ == header_root(block.header)
    &&& g.parent == parent
    &&& g.consensus_context == (ConsensusContext {
        slot: block.header.slot,
        current_block_root: Some(g.block_root),
        proposer_index: Some(block.header.proposer_index),
    })
}

impl GossipVerifiedBlock {
    /// Verifies a block for re-gossiping, without involving the slasher.
    pub fn new_without_slasher_checks(
        block: SignedBeaconBlock,
        chain: &ChainView,
        observed: &mut ObservedBlockProducers,
        cache: &mut BeaconProposerCache,
        data: ParentData,
    ) -> (r: Result<Self, BlockError>)
        requires
            chain.wf(),
        ensures
            match gossip_spec(*chain, *old(observed), old(cache).entries@, block, data) {
                Err(e) => r == Err::<Self, BlockError>(e),
                Ok(v) => r matches Ok(g) && gossip_output(block, v.1, g),
            },
            gossip_observes(*chain, *old(observed), old(cache).entries@, block, data) ==> records_proposal(
                *old(observed),
                *final(observed),
                block.header,
                header_root(block.header),
            ),
            !gossip_observes(*chain, *old(observed), old(cache).entries@, block, data) ==> *final(observed)
                == *old(observed),
            gossip_precheck(*chain, block) is Err ==> final(cache).entries@ == old(cache).entries@,
            gossip_precheck(*chain, block) matches Ok(p) ==> (if shuffling_computed(
                *chain,
                old(cache).entries@,
                block,
                p,
                data,
            ) {
                final(cache).entries@ == old(cache).entries@.push(
                    ProposerCacheEntry {
                        epoch: epoch_of(block.header.slot, chain.spec.slots_per_epoch),
                        decision_root: decision_root_spec(p, block.header.slot, chain.spec.slots_per_epoch),
                        proposers: data.epoch_proposers,
                    },
                )
            } else {
                final(cache).entries@ == old(cache).entries@
            }),
    {
        let ghost cache0 = cache.entries@;
        let (parent, block, block_root) = gossip_prechecks(block, chain)?;
        let (expected, snapshot, block) = expected_proposer(block, &parent, chain, cache, data)?;
        let proposer = block.proposer_index();
        if proposer >= chain.validator_count {
            return Err(BlockError::UnknownValidator(proposer));
        }
        if !block.proposal_signature_valid {
            return Err(BlockError::ProposalSignatureInvalid);
        }
        match observed.observe_proposal(&block_root, &block.header) {
            Err(e) => return Err(BlockError::BeaconChainError(BeaconChainError::ObserveProposal(e))),
            Ok(SeenBlock::Slashable) => return Err(BlockError::Slashable),
            Ok(SeenBlock::Duplicate) => return Err(BlockError::BlockIsAlreadyKnown),
            Ok(SeenBlock::UniqueNonSlashable) => {},
        }
        if proposer != expected {
            return Err(BlockError::IncorrectBlockProposer { block: proposer, local_shuffling: expected });
        }
        validate_execution_payload_for_gossip(&chain.spec, &block)?;
        let consensus_context = ConsensusContext::new(block.slot()).set_current_block_root(
            block_root,
        ).set_proposer_index(proposer);
        Ok(GossipVerifiedBlock { block, block_root, parent: snapshot, consensus_context })
    }

    /// Verifies a block for re-gossiping. A block that fails is offered to
    /// the slasher, which may record an equivocation from it.
    pub fn new(
        block: SignedBeaconBlock,
        chain: &ChainView,
        observed: &mut ObservedBlockProducers,
        cache: &mut BeaconProposerCache,
        slasher: &mut Option<Slasher>,
        data: ParentData,
    ) -> (r: Result<Self, BlockError>)
        requires
            chain.wf(),
        ensures
            match gossip_spec(*chain, *old(observed), old(cache).entries@, block, data) {
                Err(e) => r == Err::<Self, BlockError>(e) && slasher_after(
                    *old(slasher),
                    *final(slasher),
                    slashable_header(
                        BlockSlashInfo::from_early_error_spec(block.signed_header_spec(), e),
                        chain.validator_count,
                    ),
                ),
                Ok(v) => r matches Ok(g) && gossip_output(block, v.1, g) && *final(slasher) == *old(slasher),
            },
            gossip_observes(*chain, *old(observed), old(cache).entries@, block, data) ==> records_proposal(
                *old(observed),
                *final(observed),
                block.header,
                header_root(block.header),
            ),
            !gossip_observes(*chain, *old(observed), old(cache).entries@, block, data) ==> *final(observed)
                == *old(observed),
    {
        let header = block.signed_block_header();
        match Self::new_without_slasher_checks(block, chain, observed, cache, data) {
            Ok(g) => Ok(g),
            Err(e) => Err(
                process_block_slash_info(
                    slasher,
                    chain.validator_count,
                    BlockSlashInfo::from_early_error(header, e),
                ),
            ),
        }
    }

    pub fn block_root(&self) -> (r: Hash256)
        ensures
            r == self.block_root,
    {
        self.block_root
    }
}

} // verus!
