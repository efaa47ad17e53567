use vstd::prelude::*;
use crate::block::SignedBeaconBlock;
use crate::caches::{BeaconProposerCache, Slasher};
use crate::errors::{BlockError, BlockSlashInfo};
use crate::execution::{execution_pending_spec, pending_output, ExecutionData, ExecutionPendingBlock};
use crate::block::header_root;
use crate::gossip::{gossip_observes, gossip_output, gossip_spec, records_proposal, GossipVerifiedBlock, ParentData};
use crate::hash::Hash256;
use crate::observed::ObservedBlockProducers;
use crate::parent::{load_parent, load_parent_spec, PreProcessingSnapshot, StoredParent};
use crate::relevancy::{check_block_relevancy, relevancy_error, ChainView};
use crate::signature::ConsensusContext;
use crate::signature_stage::{from_gossip_spec, signature_new_spec, SignatureVerifiedBlock};
use crate::slash::{process_block_slash_info, slashable_header, slasher_after};

verus! {

pub open spec fn ok_parent(r: Result<PreProcessingSnapshot, BlockError>) -> Option<PreProcessingSnapshot> {
    match r {
        Ok(p) => Some(p),
        Err(_) => None,
    }
}

/// `r` is what promoting `block` gives when the promotion's outcome is
/// `outcome` and the block was run on `parent`.
pub open spec fn promoted(
    chain: ChainView,
    block: SignedBeaconBlock,
    block_root: Hash256,
    parent: Option<PreProcessingSnapshot>,
    exec: ExecutionData,
    outcome: Result<Hash256, BlockSlashInfo<BlockError>>,
    r: Result<ExecutionPendingBlock, BlockSlashInfo<BlockError>>,
) -> bool {
    match outcome {
        Err(e) => r == Err::<ExecutionPendingBlock, BlockSlashInfo<BlockError>>(e),
        Ok(local) => r is Ok && parent is Some && pending_output(chain, block, block_root, parent->0, exec, local, r->Ok_0),
    }
}

/// As `promoted`, with the slasher given the header of a valid block and
/// what it may use of a failed one.
pub open spec fn promoted_with_slasher(
    chain: ChainView,
    block: SignedBeaconBlock,
    block_root: Hash256,
    parent: Option<PreProcessingSnapshot>,
    exec: ExecutionData,
    outcome: Result<Hash256, BlockSlashInfo<BlockError>>,
    slasher_before: Option<Slasher>,
    slasher_after_call: Option<Slasher>,
    r: Result<ExecutionPendingBlock, BlockError>,
) -> bool {
    match outcome {
        Err(info) => r == Err::<ExecutionPendingBlock, BlockError>(info.error_spec()) && slasher_after(
            slasher_before,
            slasher_after_call,
            slashable_header(info, chain.validator_count),
        ),
        Ok(local) => r is Ok && parent is Some && pending_output(chain, block, block_root, parent->0, exec, local, r->Ok_0)
            && slasher_after(slasher_before, slasher_after_call, Some(block.header)),
    }
}

/// `after` is `before` with the proposal recorded where the promotion got as
/// far as recording it, and `before` otherwise.
pub open spec fn observed_effect(
    before: ObservedBlockProducers,
    after: ObservedBlockProducers,
    block: SignedBeaconBlock,
    block_root: Hash256,
    reached: bool,
) -> bool {
    if reached && before.check_spec(block.header) is Ok {
        records_proposal(before, after, block.header, block_root@)
    } else {
        after == before
    }
}

/// The parent a signature-verified block is imported on: the one it carries,
/// else the one loaded now.
pub open spec fn pending_parent_spec(chain: ChainView, sv: SignatureVerifiedBlock, data: ParentData) -> Result<
    PreProcessingSnapshot,
    BlockError,
> {
    match sv.parent {
        Some(p) => Ok(p),
        None => match load_parent_spec(sv.block, chain, data.cached, data.stored) {
            Ok(l) => Ok(l.0),
            Err(e) => Err(e),
        },
    }
}

/// The outcome of bringing a signature-verified block to execution-pending:
/// the post-state root, or the failure with the valid proposer signature the
/// slasher may use.
pub open spec fn sv_pending_spec(
    chain: ChainView,
    observed: ObservedBlockProducers,
    sv: SignatureVerifiedBlock,
    block_root: Hash256,
    data: ParentData,
    exec: ExecutionData,
) -> Result<Hash256, BlockSlashInfo<BlockError>> {
    let header = sv.block.signed_header_spec();
    match pending_parent_spec(chain, sv, data) {
        Err(e) => Err(BlockSlashInfo::SignatureValid(header, e)),
        Ok(p) => match execution_pending_spec(chain, observed, sv.block, block_root, p, sv.consensus_context, exec) {
            Err(e) => Err(BlockSlashInfo::SignatureValid(header, e)),
            Ok(local) => Ok(local),
        },
    }
}

/// The outcome of bringing a gossip-verified block to execution-pending: its
/// remaining signatures, then the state transition.
pub open spec fn gossip_pending_spec(
    chain: ChainView,
    observed: ObservedBlockProducers,
    g: GossipVerifiedBlock,
    block_root: Hash256,
    data: ParentData,
    exec: ExecutionData,
) -> Result<Hash256, BlockSlashInfo<BlockError>> {
    let header = g.block.signed_header_spec();
    match from_gossip_spec(chain, g, data) {
        Err(e) => Err(BlockSlashInfo::from_early_error_spec(header, e)),
        Ok(p) => match execution_pending_spec(chain, observed, g.block, block_root, p, g.consensus_context, exec) {
            Err(e) => Err(BlockSlashInfo::SignatureValid(header, e)),
            Ok(local) => Ok(local),
        },
    }
}

/// The context the signature stage gives an unverified block.
pub open spec fn fresh_context(block: SignedBeaconBlock, block_root: Hash256) -> ConsensusContext {
    ConsensusContext {
        slot: block.header.slot,
        current_block_root: Some(block_root),
        proposer_index: Some(block.header.proposer_index),
    }
}

/// The outcome of verifying an unverified block all the way to
/// execution-pending: the relevancy checks, all signatures, then the state
/// transition.
pub open spec fn block_pending_spec(
    chain: ChainView,
    observed: ObservedBlockProducers,
    block: SignedBeaconBlock,
    block_root: Hash256,
    data: ParentData,
    exec: ExecutionData,
) -> Result<Hash256, BlockSlashInfo<BlockError>> {
    let header = block.signed_header_spec();
    match relevancy_error(chain, block.header.slot, block_root@) {
        Some(e) => Err(BlockSlashInfo::SignatureNotChecked(header, e)),
        None => match signature_new_spec(chain, block, data) {
            Err(e) => Err(BlockSlashInfo::from_early_error_spec(header, e)),
            Ok(p) => match execution_pending_spec(chain, observed, block, block_root, p, fresh_context(block, block_root), exec) {
                Err(e) => Err(BlockSlashInfo::SignatureValid(header, e)),
                Ok(local) => Ok(local),
            },
        },
    }
}

/// The parent an unverified block is run on, where its signatures verify.
pub open spec fn block_parent_spec(chain: ChainView, block: SignedBeaconBlock, block_root: Hash256, data: ParentData) -> Option<PreProcessingSnapshot> {
    if relevancy_error(chain, block.header.slot, block_root@) is Some {
        None
    } else {
        ok_parent(signature_new_spec(chain, block, data))
    }
}

/// No parent to load: the block already carries its own.
pub fn no_parent_data() -> (r: ParentData)
    ensures
        r.cached is None,
        r.stored.block is None,
        r.stored.state is None,
        r.epoch_proposers@.len() == 0,
{
    ParentData { cached: None, stored: StoredParent { block: None, state: None }, epoch_proposers: Vec::new() }
}

impl SignatureVerifiedBlock {
    /// Completes the verification of the block: the state transition runs
    /// on its parent, loaded now if the block does not carry it.
    pub fn into_execution_pending_block_slashable(
        self,
        block_root: Hash256,
        chain: &ChainView,
        observed: &mut ObservedBlockProducers,
        data: ParentData,
        exec: ExecutionData,
    ) -> (r: Result<ExecutionPendingBlock, BlockSlashInfo<BlockError>>)
        requires
            chain.wf(),
        ensures
            promoted(
                *chain,
                self.block,
                block_root,
                ok_parent(pending_parent_spec(*chain, self, data)),
                exec,
                sv_pending_spec(*chain, *old(observed), self, block_root, data, exec),
                r,
            ),
            observed_effect(
                *old(observed),
                *final(observed),
                self.block,
                block_root,
                pending_parent_spec(*chain, self, data) is Ok,
            ),
    {
        let header = self.block.signed_block_header();
        let (parent, block) = match self.parent {
            Some(p) => (p, self.block),
            None => match load_parent(self.block, chain, data.cached, data.stored) {
                Ok(loaded) => loaded,
                Err(e) => return Err(BlockSlashInfo::SignatureValid(header, e)),
            },
        };
        match ExecutionPendingBlock::from_signature_verified_components(
            block,
            block_root,
            parent,
            self.consensus_context,
            chain,
            observed,
            exec,
        ) {
            Ok(v) => Ok(v),
            Err(e) => Err(BlockSlashInfo::SignatureValid(header, e)),
        }
    }

    /// As `into_execution_pending_block_slashable`; the slasher, if any, is
    /// given the header of a valid block, and what it may use of a failed one.
    pub fn into_execution_pending_block(
        self,
        block_root: Hash256,
        chain: &ChainView,
        observed: &mut ObservedBlockProducers,
        slasher: &mut Option<Slasher>,
        data: ParentData,
        exec: ExecutionData,
    ) -> (r: Result<ExecutionPendingBlock, BlockError>)
        requires
            chain.wf(),
        ensures
            promoted_with_slasher(
                *chain,
                self.block,
                block_root,
                ok_parent(pending_parent_spec(*chain, self, data)),
                exec,
                sv_pending_spec(*chain, *old(observed), self, block_root, data, exec),
                *old(slasher),
                *final(slasher),
                r,
            ),
            observed_effect(
                *old(observed),
                *final(observed),
                self.block,
                block_root,
                pending_parent_spec(*chain, self, data) is Ok,
            ),
    {
        let header = self.block.header;
        match self.into_execution_pending_block_slashable(block_root, chain, observed, data, exec) {
            Ok(v) => {
                if let Some(s) = slasher {
                    s.accept_block_header(header);
                }
                Ok(v)
            },
            Err(info) => Err(process_block_slash_info(slasher, chain.validator_count, info)),
        }
    }
}

impl GossipVerifiedBlock {
    /// Completes the verification of a gossip-verified block: its remaining
    /// signatures, then the state transition.
    pub fn into_execution_pending_block_slashable(
        self,
        block_root: Hash256,
        chain: &ChainView,
        observed: &mut ObservedBlockProducers,
        data: ParentData,
        exec: ExecutionData,
    ) -> (r: Result<ExecutionPendingBlock, BlockSlashInfo<BlockError>>)
        requires
            chain.wf(),
        ensures
            promoted(
                *chain,
                self.block,
                block_root,
                ok_parent(from_gossip_spec(*chain, self, data)),
                exec,
                gossip_pending_spec(*chain, *old(observed), self, block_root, data, exec),
                r,
            ),
            observed_effect(
                *old(observed),
                *final(observed),
                self.block,
                block_root,
                from_gossip_spec(*chain, self, data) is Ok,
            ),
    {
        let sv = SignatureVerifiedBlock::from_gossip_verified_block_check_slashable(self, chain, data)?;
        sv.into_execution_pending_block_slashable(block_root, chain, observed, no_parent_data(), exec)
    }

    /// As `into_execution_pending_block_slashable`, with the slasher given
    /// the header of a valid block, and what it may use of a failed one.
    pub fn into_execution_pending_block(
        self,
        block_root: Hash256,
        chain: &ChainView,
        observed: &mut ObservedBlockProducers,
        slasher: &mut Option<Slasher>,
        data: ParentData,
        exec: ExecutionData,
    ) -> (r: Result<ExecutionPendingBlock, BlockError>)
        requires
            chain.wf(),
        ensures
            promoted_with_slasher(
                *chain,
                self.block,
                block_root,
                ok_parent(from_gossip_spec(*chain, self, data)),
                exec,
                gossip_pending_spec(*chain, *old(observed), self, block_root, data, exec),
                *old(slasher),
                *final(slasher),
                r,
            ),
            observed_effect(
                *old(observed),
                *final(observed),
                self.block,
                block_root,
                from_gossip_spec(*chain, self, data) is Ok,
            ),
    {
        let header = self.block.header;
        match self.into_execution_pending_block_slashable(block_root, chain, observed, data, exec) {
            Ok(v) => {
                if let Some(s) = slasher {
                    s.accept_block_header(header);
                }
                Ok(v)
            },
            Err(info) => Err(process_block_slash_info(slasher, chain.validator_count, info)),
        }
    }
}

/// Verifies an unverified block, received by RPC or in a segment, all the
/// way to execution-pending. A block refused before its signatures verify
/// leaves the observed-proposers cache as it was.
pub fn block_into_execution_pending_block_slashable(
    block: SignedBeaconBlock,
    block_root: Hash256,
    chain: &ChainView,
    observed: &mut ObservedBlockProducers,
    data: ParentData,
    exec: ExecutionData,
) -> (r: Result<ExecutionPendingBlock, BlockSlashInfo<BlockError>>)
    requires
        chain.wf(),
    ensures
        promoted(
            *chain,
            block,
            block_root,
            block_parent_spec(*chain, block, block_root, data),
            exec,
            block_pending_spec(*chain, *old(observed), block, block_root, data, exec),
            r,
        ),
        observed_effect(
            *old(observed),
            *final(observed),
            block,
            block_root,
            block_parent_spec(*chain, block, block_root, data) is Some,
        ),
{
    let header = block.signed_block_header();
    let block_root = match check_block_relevancy(&block, block_root, chain) {
        Ok(root) => root,
        Err(e) => return Err(BlockSlashInfo::SignatureNotChecked(header, e)),
    };
    let sv = SignatureVerifiedBlock::check_slashable(block, block_root, chain, data)?;
    sv.into_execution_pending_block_slashable(block_root, chain, observed, no_parent_data(), exec)
}

/// As `block_into_execution_pending_block_slashable`, with the slasher given
/// the header of a valid block, and what it may use of a failed one.
pub fn block_into_execution_pending_block(
    block: SignedBeaconBlock,
    block_root: Hash256,
    chain: &ChainView,
    observed: &mut ObservedBlockProducers,
    slasher: &mut Option<Slasher>,
    data: ParentData,
    exec: ExecutionData,
) -> (r: Result<ExecutionPendingBlock, BlockError>)
    requires
        chain.wf(),
    ensures
        promoted_with_slasher(
            *chain,
            block,
            block_root,
            block_parent_spec(*chain, block, block_root, data),
            exec,
            block_pending_spec(*chain, *old(observed), block, block_root, data, exec),
            *old(slasher),
            *final(slasher),
            r,
        ),
        observed_effect(
            *old(observed),
            *final(observed),
            block,
            block_root,
            block_parent_spec(*chain, block, block_root, data) is Some,
        ),
{
    let header = block.header;
    match block_into_execution_pending_block_slashable(block, block_root, chain, observed, data, exec) {
        Ok(v) => {
            if let Some(s) = slasher {
                s.accept_block_header(header);
            }
            Ok(v)
        },
        Err(info) => Err(process_block_slash_info(slasher, chain.validator_count, info)),
    }
}

/// A block, at whatever stage, that can be verified for gossip.
pub trait IntoGossipVerifiedBlock: Sized {
    /// The block carried.
    spec fn block_spec(&self) -> SignedBeaconBlock;

    fn into_gossip_verified_block(
        self,
        chain: &ChainView,
        observed: &mut ObservedBlockProducers,
        cache: &mut BeaconProposerCache,
        slasher: &mut Option<Slasher>,
        data: ParentData,
    ) -> (r: Result<GossipVerifiedBlock, BlockError>)
        requires
            chain.wf(),
        ensures
            r matches Ok(g) ==> g.block == self.block_spec(),
    ;

    fn inner(&self) -> (r: &SignedBeaconBlock)
        ensures
            *r == self.block_spec(),
    ;
}

impl IntoGossipVerifiedBlock for GossipVerifiedBlock {
    open spec fn block_spec(&self) -> SignedBeaconBlock {
        self.block
    }

    /// Already verified: handed back as it is, with nothing recorded.
    fn into_gossip_verified_block(
        self,
        chain: &ChainView,
        observed: &mut ObservedBlockProducers,
        cache: &mut BeaconProposerCache,
        slasher: &mut Option<Slasher>,
        data: ParentData,
    ) -> (r: Result<GossipVerifiedBlock, BlockError>)
        ensures
            r == Ok::<GossipVerifiedBlock, BlockError>(self),
            *final(observed) == *old(observed),
            *final(cache) == *old(cache),
            *final(slasher) == *old(slasher),
    {
        Ok(self)
    }

    fn inner(&self) -> (r: &SignedBeaconBlock) {
        &self.block
    }
}

impl IntoGossipVerifiedBlock for SignedBeaconBlock {
    open spec fn block_spec(&self) -> SignedBeaconBlock {
        *self
    }

    fn into_gossip_verified_block(
        self,
        chain: &ChainView,
        observed: &mut ObservedBlockProducers,
        cache: &mut BeaconProposerCache,
        slasher: &mut Option<Slasher>,
        data: ParentData,
    ) -> (r: Result<GossipVerifiedBlock, BlockError>)
        ensures
            match gossip_spec(*chain, *old(observed), old(cache).entries@, self, data) {
                Err(e) => r == Err::<GossipVerifiedBlock, BlockError>(e) && slasher_after(
                    *old(slasher),
                    *final(slasher),
                    slashable_header(
                        BlockSlashInfo::from_early_error_spec(self.signed_header_spec(), e),
                        chain.validator_count,
                    ),
                ),
                Ok(v) => r matches Ok(g) && gossip_output(self, v.1, g) && *final(slasher) == *old(slasher),
            },
            gossip_observes(*chain, *old(observed), old(cache).entries@, self, data) ==> records_proposal(
                *old(observed),
                *final(observed),
                self.header,
                header_root(self.header),
            ),
            !gossip_observes(*chain, *old(observed), old(cache).entries@, self, data) ==> *final(observed)
                == *old(observed),
    {
        GossipVerifiedBlock::new(self, chain, observed, cache, slasher, data)
    }

    fn inner(&self) -> (r: &SignedBeaconBlock) {
        self
    }
}

/// A block, at whatever stage, that can be brought to execution-pending:
/// an unverified block, a gossip-verified one or a signature-verified one.
pub trait IntoExecutionPendingBlock: Sized {
    /// The block carried.
    spec fn block_spec(&self) -> SignedBeaconBlock;

    fn into_execution_pending_block_slashable(
        self,
        block_root: Hash256,
        chain: &ChainView,
        observed: &mut ObservedBlockProducers,
        data: ParentData,
        exec: ExecutionData,
    ) -> (r: Result<ExecutionPendingBlock, BlockSlashInfo<BlockError>>)
        requires
            chain.wf(),
        ensures
            r matches Ok(v) ==> v.block == self.block_spec() && v.block_root == block_root,
    ;

    /// As `into_execution_pending_block_slashable`, with the slasher given
    /// the header of a valid block, and what it may use of a failed one.
    fn into_execution_pending_block(
        self,
        block_root: Hash256,
        chain: &ChainView,
        observed: &mut ObservedBlockProducers,
        slasher: &mut Option<Slasher>,
        data: ParentData,
        exec: ExecutionData,
    ) -> (r: Result<ExecutionPendingBlock, BlockError>)
        requires
            chain.wf(),
        ensures
            r matches Ok(v) ==> v.block == self.block_spec() && v.block_root == block_root,
            r is Ok ==> slasher_after(*old(slasher), *final(slasher), Some(self.block_spec().header)),
            (*old(slasher)) is None ==> *final(slasher) == *old(slasher),
    ;

    fn block(&self) -> (r: &SignedBeaconBlock)
        ensures
            *r == self.block_spec(),
    ;
}

impl IntoExecutionPendingBlock for SignatureVerifiedBlock {
    open spec fn block_spec(&self) -> SignedBeaconBlock {
        self.block
    }

    fn into_execution_pending_block_slashable(
        self,
        block_root: Hash256,
        chain: &ChainView,
        observed: &mut ObservedBlockProducers,
        data: ParentData,
        exec: ExecutionData,
    ) -> (r: Result<ExecutionPendingBlock, BlockSlashInfo<BlockError>>)
        ensures
            promoted(*chain, self.block, block_root, ok_parent(pending_parent_spec(*chain, self, data)), exec, sv_pending_spec(*chain, *old(observed), self, block_root, data, exec), r),
            observed_effect(*old(observed), *final(observed), self.block, block_root, pending_parent_spec(*chain, self, data) is Ok),
    {
        SignatureVerifiedBlock::into_execution_pending_block_slashable(self, block_root, chain, observed, data, exec)
    }

    fn into_execution_pending_block(
        self,
        block_root: Hash256,
        chain: &ChainView,
        observed: &mut ObservedBlockProducers,
        slasher: &mut Option<Slasher>,
        data: ParentData,
        exec: ExecutionData,
    ) -> (r: Result<ExecutionPendingBlock, BlockError>)
        ensures
            promoted_with_slasher(*chain, self.block, block_root, ok_parent(pending_parent_spec(*chain, self, data)), exec, sv_pending_spec(*chain, *old(observed), self, block_root, data, exec), *old(slasher), *final(slasher), r),
            observed_effect(*old(observed), *final(observed), self.block, block_root, pending_parent_spec(*chain, self, data) is Ok),
    {
        SignatureVerifiedBlock::into_execution_pending_block(self, block_root, chain, observed, slasher, data, exec)
    }

    fn block(&self) -> (r: &SignedBeaconBlock) {
        &self.block
    }
}

impl IntoExecutionPendingBlock for GossipVerifiedBlock {
    open spec fn block_spec(&self) -> SignedBeaconBlock {
        self.block
    }

    fn into_execution_pending_block_slashable(
        self,
        block_root: Hash256,
        chain: &ChainView,
        observed: &mut ObservedBlockProducers,
        data: ParentData,
        exec: ExecutionData,
    ) -> (r: Result<ExecutionPendingBlock, BlockSlashInfo<BlockError>>)
        ensures
            promoted(*chain, self.block, block_root, ok_parent(from_gossip_spec(*chain, self, data)), exec, gossip_pending_spec(*chain, *old(observed), self, block_root, data, exec), r),
            observed_effect(*old(observed), *final(observed), self.block, block_root, from_gossip_spec(*chain, self, data) is Ok),
    {
        GossipVerifiedBlock::into_execution_pending_block_slashable(self, block_root, chain, observed, data, exec)
    }

    fn into_execution_pending_block(
        self,
        block_root: Hash256,
        chain: &ChainView,
        observed: &mut ObservedBlockProducers,
        slasher: &mut Option<Slasher>,
        data: ParentData,
        exec: ExecutionData,
    ) -> (r: Result<ExecutionPendingBlock, BlockError>)
        ensures
            promoted_with_slasher(*chain, self.block, block_root, ok_parent(from_gossip_spec(*chain, self, data)), exec, gossip_pending_spec(*chain, *old(observed), self, block_root, data, exec), *old(slasher), *final(slasher), r),
            observed_effect(*old(observed), *final(observed), self.block, block_root, from_gossip_spec(*chain, self, data) is Ok),
    {
        GossipVerifiedBlock::into_execution_pending_block(self, block_root, chain, observed, slasher, data, exec)
    }

    fn block(&self) -> (r: &SignedBeaconBlock) {
        &self.block
    }
}

impl IntoExecutionPendingBlock for SignedBeaconBlock {
    open spec fn block_spec(&self) -> SignedBeaconBlock {
        *self
    }

    fn into_execution_pending_block_slashable(
        self,
        block_root: Hash256,
        chain: &ChainView,
        observed: &mut ObservedBlockProducers,
        data: ParentData,
        exec: ExecutionData,
    ) -> (r: Result<ExecutionPendingBlock, BlockSlashInfo<BlockError>>)
        ensures
            promoted(*chain, self, block_root, block_parent_spec(*chain, self, block_root, data), exec, block_pending_spec(*chain, *old(observed), self, block_root, data, exec), r),
            observed_effect(*old(observed), *final(observed), self, block_root, block_parent_spec(*chain, self, block_root, data) is Some),
    {
        block_into_execution_pending_block_slashable(self, block_root, chain, observed, data, exec)
    }

    fn into_execution_pending_block(
        self,
        block_root: Hash256,
        chain: &ChainView,
        observed: &mut ObservedBlockProducers,
        slasher: &mut Option<Slasher>,
        data: ParentData,
        exec: ExecutionData,
    ) -> (r: Result<ExecutionPendingBlock, BlockError>)
        ensures
            promoted_with_slasher(*chain, self, block_root, block_parent_spec(*chain, self, block_root, data), exec, block_pending_spec(*chain, *old(observed), self, block_root, data, exec), *old(slasher), *final(slasher), r),
            observed_effect(*old(observed), *final(observed), self, block_root, block_parent_spec(*chain, self, block_root, data) is Some),
    {
        block_into_execution_pending_block(self, block_root, chain, observed, slasher, data, exec)
    }

    fn block(&self) -> (r: &SignedBeaconBlock) {
        self
    }
}

} // verus!
