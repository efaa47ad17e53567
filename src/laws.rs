use vstd::prelude::*;
use crate::block::{header_root, BeaconBlockHeader, SignedBeaconBlock};
use crate::errors::{BlockError, ExecutionPayloadError, PayloadStatus};
use crate::caches::ProposerCacheEntry;
use crate::execution::ExecutionData;
use crate::gossip::{gossip_post_error, gossip_spec};
use crate::import::{fresh_context, sv_pending_spec};
use crate::payload::{payload_outcome_spec, PayloadAnswers};
use crate::signature_stage::{segment_entry_ok, signature_new_spec};
use crate::gossip::{gossip_output, records_proposal, GossipVerifiedBlock, ParentData};
use crate::hash::Hash256;
use crate::observed::{seen_outcome, ObservedBlockProducers, SeenBlock};
use crate::parent::{advance_spec, load_parent_spec, PreProcessingSnapshot};
use crate::relevancy::ChainView;
use crate::signature::block_signatures_valid;
use crate::signature_stage::{
    first_segment_error, segment_block_error, segment_signatures_valid, segment_spec, SignatureVerifiedBlock,
};

verus! {

/// Once a proposal is recorded for a proposer and slot, observing a block
/// with another root from the same proposer at the same slot is slashable.
pub proof fn lemma_equivocation_is_slashable(
    before: ObservedBlockProducers,
    after: ObservedBlockProducers,
    header: BeaconBlockHeader,
    first: Seq<u8>,
    second: Seq<u8>,
)
    requires
        records_proposal(before, after, header, first),
        first != second,
    ensures
        seen_outcome(after.seen(header.slot, header.proposer_index), second) == SeenBlock::Slashable,
{
    assert(after.seen(header.slot, header.proposer_index).contains(first));
}

/// A block's root depends on its header alone: the root computed when the
/// block is first filtered is the one found when it is committed.
pub proof fn lemma_block_root_is_stable(a: SignedBeaconBlock, b: SignedBeaconBlock)
    requires
        a.header == b.header,
    ensures
        header_root(a.header) == header_root(b.header),
{
}

/// For a segment whose parent loads and whose blocks all have their expected
/// proposers and known signers: the signature check accepts it when every
/// signature is valid, and refuses it with `InvalidSignature` when any one
/// is not.
pub proof fn lemma_segment_signature_check(chain: ChainView, data: ParentData, blocks: Seq<(Hash256, SignedBeaconBlock)>)
    requires
        blocks.len() > 0,
        load_parent_spec(blocks[0].1, chain, data.cached, data.stored) is Ok,
        advance_spec(
            load_parent_spec(blocks[0].1, chain, data.cached, data.stored)->Ok_0.0.pre_state_slot,
            blocks.last().1.header.slot,
            chain.spec.slots_per_epoch,
        ) is Ok,
        first_segment_error(chain, data, blocks) is None,
    ensures
        segment_signatures_valid(blocks) ==> segment_spec(chain, data, blocks) is Ok,
        (exists|i: int| 0 <= i < blocks.len() && !block_signatures_valid(#[trigger] blocks[i].1)) ==> segment_spec(
            chain,
            data,
            blocks,
        ) == Err::<Option<PreProcessingSnapshot>, BlockError>(BlockError::InvalidSignature),
{
}

proof fn lemma_no_first_error(chain: ChainView, data: ParentData, blocks: Seq<(Hash256, SignedBeaconBlock)>, i: int)
    requires
        first_segment_error(chain, data, blocks) is None,
        0 <= i < blocks.len(),
    ensures
        segment_block_error(chain, data, blocks[i].1) is None,
    decreases blocks.len(),
{
    if i > 0 {
        lemma_no_first_error(chain, data, blocks.drop_first(), i - 1);
        assert(blocks.drop_first()[i - 1] == blocks[i]);
    }
}

/// A segment accepted as a whole holds no block that would fail the same
/// checks on its own: each has its expected proposer, known signers and
/// valid signatures.
pub proof fn lemma_accepted_segment_blocks_verify(
    chain: ChainView,
    data: ParentData,
    blocks: Seq<(Hash256, SignedBeaconBlock)>,
    i: int,
)
    requires
        segment_spec(chain, data, blocks) is Ok,
        0 <= i < blocks.len(),
    ensures
        segment_block_error(chain, data, blocks[i].1) is None,
        block_signatures_valid(blocks[i].1),
{
    lemma_no_first_error(chain, data, blocks, i);
}

/// A block that passes gossip and then the remaining signature checks
/// carries in its context the root and proposer index that recomputing them
/// from the block gives.
pub proof fn lemma_context_carries_root_and_proposer(
    block: SignedBeaconBlock,
    parent: Option<PreProcessingSnapshot>,
    g: GossipVerifiedBlock,
    p: PreProcessingSnapshot,
    sv: SignatureVerifiedBlock,
)
    requires
        gossip_output(block, parent, g),
        sv == (SignatureVerifiedBlock {
            block: g.block,
            block_root: g.block_root,
            parent: Some(p),
            consensus_context: g.consensus_context,
        }),
    ensures
        sv.consensus_context.current_block_root is Some,
        sv.consensus_context.current_block_root->0@ == header_root(sv.block.header),
        sv.block_root@ == header_root(sv.block.header),
        sv.consensus_context.proposer_index == Some(sv.block.header.proposer_index),
        sv.consensus_context.slot == sv.block.header.slot,
{
}

proof fn lemma_gather_errors_are_not_signature_errors(
    chain: ChainView,
    data: ParentData,
    blocks: Seq<(Hash256, SignedBeaconBlock)>,
)
    ensures
        first_segment_error(chain, data, blocks) != Some(BlockError::InvalidSignature),
    decreases blocks.len(),
{
    if blocks.len() > 0 {
        lemma_gather_errors_are_not_signature_errors(chain, data, blocks.drop_first());
    }
}

/// Whatever the segment, a check over signatures that are all valid never
/// refuses it for an invalid signature, and a segment with one invalid
/// signature is never accepted.
pub proof fn lemma_segment_signatures_decide(chain: ChainView, data: ParentData, blocks: Seq<(Hash256, SignedBeaconBlock)>)
    ensures
        segment_signatures_valid(blocks) ==> segment_spec(chain, data, blocks) != Err::<
            Option<PreProcessingSnapshot>,
            BlockError,
        >(BlockError::InvalidSignature),
        (exists|i: int| 0 <= i < blocks.len() && !block_signatures_valid(#[trigger] blocks[i].1)) ==> segment_spec(
            chain,
            data,
            blocks,
        ) is Err,
{
    lemma_gather_errors_are_not_signature_errors(chain, data, blocks);
}

/// At gossip, once a block from a proposer at a slot is recorded, another
/// block with a different root from that proposer at that slot is refused.
pub proof fn lemma_second_gossip_block_refused(
    chain: ChainView,
    before: ObservedBlockProducers,
    after: ObservedBlockProducers,
    cache: Seq<ProposerCacheEntry>,
    first: SignedBeaconBlock,
    second: SignedBeaconBlock,
    data: ParentData,
)
    requires
        records_proposal(before, after, first.header, header_root(first.header)),
        second.header.slot == first.header.slot,
        second.header.proposer_index == first.header.proposer_index,
        header_root(second.header) != header_root(first.header),
    ensures
        gossip_spec(chain, after, cache, second, data) is Err,
{
    lemma_equivocation_is_slashable(before, after, first.header, header_root(first.header), header_root(second.header));
}

/// A block of an accepted segment and the same block verified on its own,
/// against the same parent, go through the state transition alike: the same
/// outcome and, on success, the same post-state root.
pub proof fn lemma_segment_entry_promotes_like_single_block(
    chain: ChainView,
    observed: ObservedBlockProducers,
    seg_data: ParentData,
    blocks: Seq<(Hash256, SignedBeaconBlock)>,
    i: int,
    entry: SignatureVerifiedBlock,
    single_data: ParentData,
    single: SignatureVerifiedBlock,
    promote_data: ParentData,
    exec: ExecutionData,
)
    requires
        0 <= i < blocks.len(),
        segment_spec(chain, seg_data, blocks) is Ok,
        segment_entry_ok(entry, blocks, i, segment_spec(chain, seg_data, blocks)->Ok_0),
        signature_new_spec(chain, blocks[i].1, single_data) is Ok,
        single == (SignatureVerifiedBlock {
            block: blocks[i].1,
            block_root: blocks[i].0,
            parent: Some(signature_new_spec(chain, blocks[i].1, single_data)->Ok_0),
            consensus_context: fresh_context(blocks[i].1, blocks[i].0),
        }),
        seg_data.cached == single_data.cached && seg_data.stored == single_data.stored,
        promote_data.cached == single_data.cached && promote_data.stored == single_data.stored,
    ensures
        sv_pending_spec(chain, observed, entry, blocks[i].0, promote_data, exec) == sv_pending_spec(
            chain,
            observed,
            single,
            blocks[i].0,
            promote_data,
            exec,
        ),
{
}

/// A payload the execution engine is still syncing on, of a block that is
/// no optimistic candidate (the justified block has no payload and the block
/// is within the safe distance of the clock), is refused as such; the peer is
/// not at fault.
pub proof fn lemma_syncing_non_candidate_refused(
    merge_transition: bool,
    block_slot: u64,
    safe_slots: u64,
    answers: PayloadAnswers,
)
    requires
        !(merge_transition && answers.merge_check is Err),
        answers.new_payload == Ok::<PayloadStatus, ExecutionPayloadError>(PayloadStatus::Syncing),
        !answers.justified_has_payload,
        block_slot + safe_slots > answers.current_slot,
    ensures
        payload_outcome_spec(merge_transition, block_slot, safe_slots, answers) == Err::<
            crate::payload::PayloadVerificationOutcome,
            BlockError,
        >(BlockError::ExecutionPayloadError(ExecutionPayloadError::UnverifiedNonOptimisticCandidate)),
        !ExecutionPayloadError::UnverifiedNonOptimisticCandidate.penalizes(),
{
}

/// At gossip, a block seen again from the only proposal recorded for its
/// proposer and slot is a duplicate, not an equivocation, once its proposer
/// signature checks out again.
pub proof fn lemma_same_gossip_block_is_duplicate(
    chain: ChainView,
    before: ObservedBlockProducers,
    after: ObservedBlockProducers,
    block: SignedBeaconBlock,
    expected: u64,
)
    requires
        records_proposal(before, after, block.header, header_root(block.header)),
        before.seen(block.header.slot, block.header.proposer_index) == Set::<Seq<u8>>::empty(),
        block.header.proposer_index < chain.validator_count,
        block.proposal_signature_valid,
        after.check_spec(block.header) is Ok,
    ensures
        gossip_post_error(chain, after, block, expected) == Some(BlockError::BlockIsAlreadyKnown),
{
    assert(header_root(block.header).push(0u8).len() != header_root(block.header).len());
    crate::observed::lemma_second_distinct_root_is_slashable(
        Set::empty(),
        header_root(block.header),
        header_root(block.header).push(0u8),
    );
    assert(Set::<Seq<u8>>::empty().insert(header_root(block.header)) == after.seen(
        block.header.slot,
        block.header.proposer_index,
    ));
}

} // verus!
