use vstd::prelude::*;
use crate::block::{header_root, SignedBeaconBlock};
use crate::clock::SlotClock;
use crate::errors::{BeaconChainError, BlockError, ObserveError};
use crate::hash::Hash256;
use crate::observed::{ObservedBlockProducers, SeenBlock};
use crate::relevancy::get_block_root;

verus! {

/// Identifies a batch handed to the processor by sync.
#[derive(Clone, Copy, Debug)]
pub enum ChainSegmentProcessId {
    /// A range sync batch: the chain's id and the batch's epoch.
    RangeBatchId(u64, u64),
    /// A backfill batch, by epoch.
    BackSyncBatchId(u64),
    /// The parents looked up for a block, by the root of the chain's head.
    ParentLookup(Hash256),
}

/// How a peer is penalised.
#[derive(Clone, Copy, Debug, PartialEq, Eq, Structural)]
pub enum PeerAction {
    Fatal,
    LowToleranceError,
    MidToleranceError,
    HighToleranceError,
}

/// Why a batch failed, for the logs.
#[derive(Clone, Copy, Debug, PartialEq, Eq, Structural)]
pub enum FailureReason {
    UnknownParent,
    FutureSlot { present_slot: u64, block_slot: u64 },
    Internal,
    ExecutionLayerOffline,
    InvalidExecutionPayload,
    InvalidParentPayload,
    InvalidBlock,
    ConflictsWithFinality,
    MismatchedBlockRoot,
    InvalidSignature,
    PubkeyCacheTimeout,
    NoAnchorInfo,
    LogicError,
    UnexpectedError,
}

/// A failed batch and the penalty, if any, for the peer that sent it.
#[derive(Clone, Copy, Debug, PartialEq, Eq, Structural)]
pub struct ChainSegmentFailed {
    pub reason: FailureReason,
    pub peer_action: Option<PeerAction>,
}

/// What sync is told of a processed batch.
#[derive(Clone, Copy, Debug, PartialEq, Eq, Structural)]
pub enum BatchProcessResult {
    Success { was_non_empty: bool },
    FaultyFailure { imported_blocks: bool, penalty: PeerAction },
    NonFaultyFailure,
}

pub open spec fn failed(reason: FailureReason, peer_action: Option<PeerAction>) -> Result<(), ChainSegmentFailed> {
    Err(ChainSegmentFailed { reason, peer_action })
}

/// How the failure of a chain segment is judged: blocks already known,
/// finalized or genesis are no failure; internal errors, execution-layer
/// errors that are not the peer's, and blocks that conflict with finality or
/// the weak subjectivity anchor fail without a penalty; every other error is
/// an invalid block (unknown parent, future slot, bad signature, state root,
/// proposer, structure, slot limit, invalid parent payload, a timestamp
/// mismatch, an equivocation) and costs the peer a low-tolerance penalty.
/// An equivocation is only a weak signal, but a segment failure is either
/// penalised at low tolerance or not at all, and an honest peer does not
/// serve two blocks of one proposer and slot: it is penalised at low
/// tolerance.
pub open spec fn failed_segment_spec(error: BlockError) -> Result<(), ChainSegmentFailed> {
    match error {
        BlockError::ParentUnknown(_) => failed(FailureReason::UnknownParent, Some(PeerAction::LowToleranceError)),
        BlockError::BlockIsAlreadyKnown => Ok(()),
        BlockError::FutureSlot { present_slot, block_slot } => failed(
            FailureReason::FutureSlot { present_slot, block_slot },
            Some(PeerAction::LowToleranceError),
        ),
        BlockError::WouldRevertFinalizedSlot { .. } => Ok(()),
        BlockError::GenesisBlock => Ok(()),
        BlockError::BeaconChainError(_) => failed(FailureReason::Internal, None),
        BlockError::ExecutionPayloadError(e) => if e.penalizes() {
            failed(FailureReason::InvalidExecutionPayload, Some(PeerAction::LowToleranceError))
        } else {
            failed(FailureReason::ExecutionLayerOffline, None)
        },
        BlockError::ParentExecutionPayloadInvalid { .. } => failed(
            FailureReason::InvalidParentPayload,
            Some(PeerAction::LowToleranceError),
        ),
        BlockError::NotFinalizedDescendant { .. } => failed(FailureReason::ConflictsWithFinality, None),
        BlockError::WeakSubjectivityConflict => failed(FailureReason::ConflictsWithFinality, None),
        BlockError::StateRootMismatch { .. }
        | BlockError::BlockSlotLimitReached
        | BlockError::IncorrectBlockProposer { .. }
        | BlockError::ProposalSignatureInvalid
        | BlockError::UnknownValidator(_)
        | BlockError::InvalidSignature
        | BlockError::BlockIsNotLaterThanParent { .. }
        | BlockError::NonLinearParentRoots
        | BlockError::NonLinearSlots
        | BlockError::PerBlockProcessingError(_)
        | BlockError::InconsistentFork { .. }
        | BlockError::Slashable => failed(FailureReason::InvalidBlock, Some(PeerAction::LowToleranceError)),
    }
}


/// What the chain answered for a segment.
#[derive(Clone, Debug)]
pub enum ChainSegmentResult {
    Successful { imported_blocks: usize },
    Failed { imported_blocks: usize, error: BlockError },
}


/// Why a backfill batch could not be imported.
#[derive(Clone, Debug)]
pub enum HistoricalBlockError {
    MismatchedBlockRoot { block_root: Hash256, expected_block_root: Hash256 },
    InvalidSignature,
    SignatureSet { reason: String },
    ValidatorPubkeyCacheTimeout,
    NoAnchorInfo,
    IndexOutOfBounds,
    BlockOutOfRange { slot: u64, oldest_block_slot: u64 },
}

/// The error of a failed backfill import.
#[derive(Clone, Debug)]
pub enum BackfillError {
    Historical(HistoricalBlockError),
    Other(BeaconChainError),
}

pub open spec fn backfill_failure_spec(error: BackfillError) -> ChainSegmentFailed {
    match error {
        BackfillError::Historical(e) => match e {
            HistoricalBlockError::MismatchedBlockRoot { .. } => ChainSegmentFailed {
                reason: FailureReason::MismatchedBlockRoot,
                peer_action: Some(PeerAction::LowToleranceError),
            },
            HistoricalBlockError::InvalidSignature => ChainSegmentFailed {
                reason: FailureReason::InvalidSignature,
                peer_action: Some(PeerAction::LowToleranceError),
            },
            HistoricalBlockError::SignatureSet { .. } => ChainSegmentFailed {
                reason: FailureReason::InvalidSignature,
                peer_action: Some(PeerAction::LowToleranceError),
            },
            HistoricalBlockError::ValidatorPubkeyCacheTimeout => ChainSegmentFailed {
                reason: FailureReason::PubkeyCacheTimeout,
                peer_action: None,
            },
            HistoricalBlockError::NoAnchorInfo => ChainSegmentFailed { reason: FailureReason::NoAnchorInfo, peer_action: None },
            HistoricalBlockError::IndexOutOfBounds => ChainSegmentFailed { reason: FailureReason::LogicError, peer_action: None },
            HistoricalBlockError::BlockOutOfRange { .. } => ChainSegmentFailed {
                reason: FailureReason::UnexpectedError,
                peer_action: None,
            },
        },
        BackfillError::Other(_) => ChainSegmentFailed { reason: FailureReason::Internal, peer_action: None },
    }
}


pub open spec fn failure_result(imported_any: bool, e: ChainSegmentFailed) -> BatchProcessResult {
    match e.peer_action {
        Some(penalty) => BatchProcessResult::FaultyFailure { imported_blocks: imported_any, penalty },
        None => BatchProcessResult::NonFaultyFailure,
    }
}

pub open spec fn batch_result_spec(
    sync_type: ChainSegmentProcessId,
    sent_blocks: usize,
    outcome: (usize, Result<(), ChainSegmentFailed>),
) -> BatchProcessResult {
    match sync_type {
        ChainSegmentProcessId::RangeBatchId(_, _) => match outcome.1 {
            Ok(_) => BatchProcessResult::Success { was_non_empty: sent_blocks > 0 },
            Err(e) => failure_result(outcome.0 > 0, e),
        },
        ChainSegmentProcessId::BackSyncBatchId(_) => match outcome.1 {
            Ok(_) => BatchProcessResult::Success { was_non_empty: sent_blocks > 0 },
            Err(e) => failure_result(false, e),
        },
        ChainSegmentProcessId::ParentLookup(_) => match outcome.1 {
            Ok(_) => BatchProcessResult::Success { was_non_empty: outcome.0 > 0 },
            Err(e) => failure_result(outcome.0 > 0, e),
        },
    }
}

fn failure_to_result(imported_any: bool, e: ChainSegmentFailed) -> (r: BatchProcessResult)
    ensures
        r == failure_result(imported_any, e),
{
    match e.peer_action {
        Some(penalty) => BatchProcessResult::FaultyFailure { imported_blocks: imported_any, penalty },
        None => BatchProcessResult::NonFaultyFailure,
    }
}


/// The order in which a batch's blocks are processed: as downloaded, except
/// for parent lookups, which arrive highest slot first and are reversed.
pub fn blocks_in_processing_order(sync_type: ChainSegmentProcessId, blocks: Vec<SignedBeaconBlock>) -> (r: Vec<
    SignedBeaconBlock,
>)
    ensures
        r@.len() == blocks@.len(),
        sync_type is ParentLookup ==> forall|i: int|
            0 <= i < blocks@.len() ==> #[trigger] r@[i] == blocks@[blocks@.len() - 1 - i],
        !(sync_type is ParentLookup) ==> r@ == blocks@,
{
    match sync_type {
        ChainSegmentProcessId::ParentLookup(_) => {
            let ghost downloaded = blocks@;
            let mut rest = blocks;
            let mut out: Vec<SignedBeaconBlock> = Vec::new();
            while rest.len() > 0
                invariant
                    out@.len() + rest@.len() == downloaded.len(),
                    rest@ == downloaded.subrange(0, rest@.len() as int),
                    forall|i: int| 0 <= i < out@.len() ==> #[trigger] out@[i] == downloaded[downloaded.len() - 1 - i],
                decreases rest@.len(),
            {
                let b = rest.pop().unwrap();
                out.push(b);
            }
            out
        },
        _ => blocks,
    }
}

/// Whether `roots` holds `root`.
pub open spec fn holds(roots: Seq<Hash256>, root: Seq<u8>) -> bool {
    exists|i: int| 0 <= i < roots.len() && (#[trigger] roots[i])@ == root
}

proof fn lemma_holds_push(roots: Seq<Hash256>, x: Hash256, root: Seq<u8>)
    ensures
        holds(roots.push(x), root) == (holds(roots, root) || x@ == root),
{
    let pushed = roots.push(x);
    if holds(roots, root) {
        let i = choose|i: int| 0 <= i < roots.len() && (#[trigger] roots[i])@ == root;
        assert(pushed[i] == roots[i]);
    }
    if x@ == root {
        assert(pushed[roots.len() as int] == x);
    }
    if holds(pushed, root) {
        let i = choose|i: int| 0 <= i < pushed.len() && (#[trigger] pushed[i])@ == root;
        if i < roots.len() {
            assert(pushed[i] == roots[i]);
        }
    }
}

/// No root appears twice in `roots`.
pub open spec fn distinct(roots: Seq<Hash256>) -> bool {
    forall|i: int, j: int| 0 <= i < j < roots.len() ==> (#[trigger] roots[i])@ != (#[trigger] roots[j])@
}

proof fn lemma_distinct_push(roots: Seq<Hash256>, x: Hash256)
    requires
        distinct(roots),
        !holds(roots, x@),
    ensures
        distinct(roots.push(x)),
{
    let pushed = roots.push(x);
    assert forall|i: int, j: int| 0 <= i < j < pushed.len() implies (#[trigger] pushed[i])@ != (#[trigger] pushed[j])@ by {
        assert(pushed[i] == roots[i]);
        if j < roots.len() {
            assert(pushed[j] == roots[j]);
        } else {
            assert(pushed[j] == x);
        }
    }
}

/// Roots of the blocks being imported right now, from any source.
#[derive(Clone, Debug)]
pub struct DuplicateCache {
    pub roots: Vec<Hash256>,
}

impl DuplicateCache {
    /// Each root is held at most once.
    pub open spec fn wf(&self) -> bool {
        distinct(self.roots@)
    }

    pub open spec fn contains_spec(&self, root: Seq<u8>) -> bool {
        holds(self.roots@, root)
    }

    pub fn new() -> (r: Self)
        ensures
            r.wf(),
            forall|root: Seq<u8>| !r.contains_spec(root),
    {
        DuplicateCache { roots: Vec::new() }
    }

    /// Claims `root` for an import; false where another import holds it.
    pub fn check_and_insert(&mut self, root: &Hash256) -> (r: bool)
        requires
            old(self).wf(),
        ensures
            final(self).wf(),
            r == !old(self).contains_spec(root@),
            final(self).contains_spec(root@),
            forall|other: Seq<u8>|
                other != root@ ==> (final(self).contains_spec(other) == old(self).contains_spec(other)),
    {
        let mut i: usize = 0;
        while i < self.roots.len()
            invariant
                i <= self.roots.len(),
                self.wf(),
                forall|j: int| 0 <= j < i ==> (#[trigger] self.roots@[j])@ != root@,
            decreases self.roots.len() - i,
        {
            if self.roots[i].same(root) {
                return false;
            }
            i = i + 1;
        }
        let ghost before = self.roots@;
        self.roots.push(*root);
        proof {
            assert(!holds(before, root@));
            lemma_distinct_push(before, *root);
            assert forall|other: Seq<u8>| #[trigger] holds(self.roots@, other) == (holds(before, other) || root@ == other) by {
                lemma_holds_push(before, *root, other);
            }
        }
        true
    }

    /// Releases `root` once its import is over.
    pub fn remove(&mut self, root: &Hash256)
        requires
            old(self).wf(),
        ensures
            final(self).wf(),
            !final(self).contains_spec(root@),
            forall|other: Seq<u8>|
                other != root@ ==> (final(self).contains_spec(other) == old(self).contains_spec(other)),
    {
        let mut kept: Vec<Hash256> = Vec::new();
        let mut i: usize = 0;
        while i < self.roots.len()
            invariant
                i <= self.roots.len(),
                distinct(self.roots@),
                distinct(kept@),
                !holds(kept@, root@),
                forall|other: Seq<u8>|
                    other != root@ ==> (#[trigger] holds(kept@, other) == holds(
                        self.roots@.subrange(0, i as int),
                        other,
                    )),
            decreases self.roots.len() - i,
        {
            let r = self.roots[i];
            let ghost old_kept = kept@;
            assert(self.roots@.subrange(0, i + 1) =~= self.roots@.subrange(0, i as int).push(r));
            if !r.same(root) {
                proof {
                    assert(!holds(self.roots@.subrange(0, i as int), r@)) by {
                        if holds(self.roots@.subrange(0, i as int), r@) {
                            let j = choose|j: int|
                                0 <= j < i && (#[trigger] self.roots@.subrange(0, i as int)[j])@ == r@;
                            assert(self.roots@.subrange(0, i as int)[j] == self.roots@[j]);
                            assert(self.roots@[j]@ != self.roots@[i as int]@);
                        }
                    }
                    lemma_distinct_push(kept@, r);
                }
                kept.push(r);
            }
            proof {
                lemma_holds_push(old_kept, r, root@);
                assert forall|other: Seq<u8>| other != root@ implies (#[trigger] holds(kept@, other) == holds(
                    self.roots@.subrange(0, i + 1),
                    other,
                )) by {
                    lemma_holds_push(old_kept, r, other);
                    lemma_holds_push(self.roots@.subrange(0, i as int), r, other);
                }
            }
            i = i + 1;
        }
        assert(self.roots@.subrange(0, i as int) =~= self.roots@);
        self.roots = kept;
    }
}

/// Whether a block's import in turn waits or goes ahead.
#[derive(Clone, Copy, Debug, PartialEq, Eq, Structural)]
pub enum RpcBlockAction {
    /// Put the block in the reprocessing queue and try again later.
    Requeue,
    /// Import the block now.
    Import,
}

pub open spec fn delay_spec(clock: SlotClock, now_ms: u64, slot: u64) -> u64 {
    match clock.start_of_spec(slot) {
        Some(start) => if now_ms >= start {
            (now_ms - start) as u64
        } else {
            0
        },
        None => 0,
    }
}

pub open spec fn late_spec(clock: SlotClock, slot: u64) -> bool {
    match clock.now_ms {
        None => true,
        Some(now) => delay_spec(clock, now, slot) > clock.slot_duration_ms / 3,
    }
}

/// Whether a block arrives after the attestation deadline of its slot, a
/// third of the way into it. A clock that cannot be read counts as late, so
/// that the block is not requeued for ever.
pub fn block_is_late(clock: &SlotClock, slot: u64) -> (r: bool)
    ensures
        r == late_spec(*clock, slot),
{
    match clock.now_ms {
        None => true,
        Some(now) => {
            let delay = match clock.start_of(slot) {
                Some(start) => if now >= start {
                    now - start
                } else {
                    0
                },
                None => 0,
            };
            delay > clock.unagg_attestation_production_delay()
        },
    }
}

pub open spec fn equivocates_spec(seen: Result<SeenBlock, ObserveError>) -> bool {
    match seen {
        Ok(s) => s == SeenBlock::Slashable,
        Err(_) => false,
    }
}

pub open spec fn rpc_action_spec(claimed: bool, late: bool, seen: Result<SeenBlock, ObserveError>) -> RpcBlockAction {
    if !claimed {
        RpcBlockAction::Requeue
    } else if !late && equivocates_spec(seen) {
        RpcBlockAction::Requeue
    } else {
        RpcBlockAction::Import
    }
}

/// Decides whether a block received by RPC is imported now: not while another
/// import of it is in flight, and not before the attestation deadline when
/// its proposer already proposed another block at its slot, so that it earns
/// no proposer boost. Blocks the observed-proposers cache cannot judge are
/// imported and refused there.
pub fn rpc_block_action(claimed: bool, late: bool, seen: Result<SeenBlock, ObserveError>) -> (r: RpcBlockAction)
    ensures
        r == rpc_action_spec(claimed, late, seen),
{
    if !claimed {
        return RpcBlockAction::Requeue;
    }
    let equivocates = match seen {
        Ok(s) => s == SeenBlock::Slashable,
        Err(_) => false,
    };
    if !late && equivocates {
        RpcBlockAction::Requeue
    } else {
        RpcBlockAction::Import
    }
}

/// The sync side of block import: what it needs to decide how blocks
/// received by RPC or in batches are fed to the verification pipeline.
#[derive(Clone, Debug)]
pub struct NetworkBeaconProcessor {
    pub duplicate_cache: DuplicateCache,
    pub observed: ObservedBlockProducers,
    pub clock: SlotClock,
}

impl NetworkBeaconProcessor {
    pub open spec fn wf(&self) -> bool {
        self.duplicate_cache.wf()
    }

    /// Decides what happens to a block received by RPC. The block's root is
    /// claimed in the duplicate cache; if another import holds it, the block
    /// is requeued. A block that arrives before the attestation deadline from
    /// a proposer already seen with another block at its slot is requeued
    /// too, and its claim released, so that it is imported late enough to
    /// earn no proposer boost. Otherwise the block is imported, and its claim
    /// is held until `finish_rpc_block`.
    pub fn process_rpc_block(&mut self, block_root: &Hash256, block: &SignedBeaconBlock) -> (r: RpcBlockAction)
        requires
            old(self).wf(),
        ensures
            final(self).wf(),
            r == rpc_action_spec(
                !old(self).duplicate_cache.contains_spec(block_root@),
                late_spec(old(self).clock, block.header.slot),
                match old(self).observed.check_spec(block.header) {
                    Err(e) => Err(e),
                    Ok(_) => Ok(
                        crate::observed::seen_outcome(
                            old(self).observed.seen(block.header.slot, block.header.proposer_index),
                            header_root(block.header),
                        ),
                    ),
                },
            ),
            final(self).observed == old(self).observed,
            final(self).clock == old(self).clock,
            r == RpcBlockAction::Import ==> final(self).duplicate_cache.contains_spec(block_root@),
            forall|other: Seq<u8>|
                other != block_root@ ==> (final(self).duplicate_cache.contains_spec(other)
                    == old(self).duplicate_cache.contains_spec(other)),
            old(self).duplicate_cache.contains_spec(block_root@) ==> final(self).duplicate_cache.contains_spec(
                block_root@,
            ),
            !old(self).duplicate_cache.contains_spec(block_root@) && r == RpcBlockAction::Requeue
                ==> !final(self).duplicate_cache.contains_spec(block_root@),
    {
        let claimed = self.duplicate_cache.check_and_insert(block_root);
        if !claimed {
            return RpcBlockAction::Requeue;
        }
        let late = block_is_late(&self.clock, block.slot());
        let root = get_block_root(block);
        let seen = self.observed.proposer_has_been_observed(&block.header, &root);
        let action = rpc_block_action(claimed, late, seen);
        if action == RpcBlockAction::Requeue {
            self.duplicate_cache.remove(block_root);
        }
        action
    }

    /// Releases the claim of an RPC block whose import is over.
    pub fn finish_rpc_block(&mut self, block_root: &Hash256)
        requires
            old(self).wf(),
        ensures
            final(self).wf(),
            !final(self).duplicate_cache.contains_spec(block_root@),
            forall|other: Seq<u8>|
                other != block_root@ ==> (final(self).duplicate_cache.contains_spec(other)
                    == old(self).duplicate_cache.contains_spec(other)),
            final(self).observed == old(self).observed,
            final(self).clock == old(self).clock,
    {
        self.duplicate_cache.remove(block_root);
    }

    /// What sync is told of a batch of `sent_blocks` blocks, from the number
    /// of blocks imported and the judgement of the processing.
    pub fn process_chain_segment(
        &self,
        sync_type: ChainSegmentProcessId,
        sent_blocks: usize,
        outcome: (usize, Result<(), ChainSegmentFailed>),
    ) -> (r: BatchProcessResult)
        ensures
            r == batch_result_spec(sync_type, sent_blocks, outcome),
    {
        let (imported, judged) = outcome;
        match sync_type {
            ChainSegmentProcessId::RangeBatchId(_, _) => match judged {
                Ok(_) => BatchProcessResult::Success { was_non_empty: sent_blocks > 0 },
                Err(e) => failure_to_result(imported > 0, e),
            },
            ChainSegmentProcessId::BackSyncBatchId(_) => match judged {
                Ok(_) => BatchProcessResult::Success { was_non_empty: sent_blocks > 0 },
                Err(e) => failure_to_result(false, e),
            },
            ChainSegmentProcessId::ParentLookup(_) => match judged {
                Ok(_) => BatchProcessResult::Success { was_non_empty: imported > 0 },
                Err(e) => failure_to_result(imported > 0, e),
            },
        }
    }

    /// The number of blocks imported and the judgement of a segment's result.
    pub fn process_blocks(&self, result: ChainSegmentResult) -> (r: (usize, Result<(), ChainSegmentFailed>))
        ensures
            match result {
                ChainSegmentResult::Successful { imported_blocks } => r == (
                    imported_blocks,
                    Ok::<(), ChainSegmentFailed>(()),
                ),
                ChainSegmentResult::Failed { imported_blocks, error } => r == (
                    imported_blocks,
                    failed_segment_spec(error),
                ),
            },
    {
        match result {
            ChainSegmentResult::Successful { imported_blocks } => (imported_blocks, Ok(())),
            ChainSegmentResult::Failed { imported_blocks, error } => (imported_blocks, self.handle_failed_chain_segment(error)),
        }
    }

    /// Judges the result of importing a backfill batch: bad roots and bad
    /// signatures are the peer's fault, everything else is not. A failed
    /// batch imports nothing.
    pub fn process_backfill_blocks(&self, result: Result<usize, BackfillError>) -> (r: (
        usize,
        Result<(), ChainSegmentFailed>,
    ))
        ensures
            match result {
                Ok(n) => r == (n, Ok::<(), ChainSegmentFailed>(())),
                Err(e) => r == (0usize, Err::<(), ChainSegmentFailed>(backfill_failure_spec(e))),
            },
    {
        match result {
            Ok(n) => (n, Ok(())),
            Err(error) => {
                let failure = match error {
                    BackfillError::Historical(e) => match e {
                        HistoricalBlockError::MismatchedBlockRoot { .. } => ChainSegmentFailed {
                            reason: FailureReason::MismatchedBlockRoot,
                            peer_action: Some(PeerAction::LowToleranceError),
                        },
                        HistoricalBlockError::InvalidSignature => ChainSegmentFailed {
                            reason: FailureReason::InvalidSignature,
                            peer_action: Some(PeerAction::LowToleranceError),
                        },
                        HistoricalBlockError::SignatureSet { .. } => ChainSegmentFailed {
                            reason: FailureReason::InvalidSignature,
                            peer_action: Some(PeerAction::LowToleranceError),
                        },
                        HistoricalBlockError::ValidatorPubkeyCacheTimeout => ChainSegmentFailed {
                            reason: FailureReason::PubkeyCacheTimeout,
                            peer_action: None,
                        },
                        HistoricalBlockError::NoAnchorInfo => ChainSegmentFailed {
                            reason: FailureReason::NoAnchorInfo,
                            peer_action: None,
                        },
                        HistoricalBlockError::IndexOutOfBounds => ChainSegmentFailed {
                            reason: FailureReason::LogicError,
                            peer_action: None,
                        },
                        HistoricalBlockError::BlockOutOfRange { .. } => ChainSegmentFailed {
                            reason: FailureReason::UnexpectedError,
                            peer_action: None,
                        },
                    },
                    BackfillError::Other(_) => ChainSegmentFailed { reason: FailureReason::Internal, peer_action: None },
                };
                (0, Err(failure))
            },
        }
    }

    /// Judges the error a chain segment failed with.
    pub fn handle_failed_chain_segment(&self, error: BlockError) -> (r: Result<(), ChainSegmentFailed>)
        ensures
            r == failed_segment_spec(error),
    {
        match error {
            BlockError::ParentUnknown(_) => Err(
                ChainSegmentFailed { reason: FailureReason::UnknownParent, peer_action: Some(PeerAction::LowToleranceError) },
            ),
            BlockError::BlockIsAlreadyKnown => Ok(()),
            BlockError::FutureSlot { present_slot, block_slot } => Err(
                ChainSegmentFailed {
                    reason: FailureReason::FutureSlot { present_slot, block_slot },
                    peer_action: Some(PeerAction::LowToleranceError),
                },
            ),
            BlockError::WouldRevertFinalizedSlot { .. } => Ok(()),
            BlockError::GenesisBlock => Ok(()),
            BlockError::BeaconChainError(_) => Err(ChainSegmentFailed { reason: FailureReason::Internal, peer_action: None }),
            BlockError::ExecutionPayloadError(e) => {
                if e.penalize_peer() {
                    Err(
                        ChainSegmentFailed {
                            reason: FailureReason::InvalidExecutionPayload,
                            peer_action: Some(PeerAction::LowToleranceError),
                        },
                    )
                } else {
                    Err(ChainSegmentFailed { reason: FailureReason::ExecutionLayerOffline, peer_action: None })
                }
            },
            BlockError::ParentExecutionPayloadInvalid { .. } => Err(
                ChainSegmentFailed {
                    reason: FailureReason::InvalidParentPayload,
                    peer_action: Some(PeerAction::LowToleranceError),
                },
            ),
            BlockError::NotFinalizedDescendant { .. } => Err(
                ChainSegmentFailed { reason: FailureReason::ConflictsWithFinality, peer_action: None },
            ),
            BlockError::WeakSubjectivityConflict => Err(
                ChainSegmentFailed { reason: FailureReason::ConflictsWithFinality, peer_action: None },
            ),
            BlockError::StateRootMismatch { .. }
            | BlockError::BlockSlotLimitReached
            | BlockError::IncorrectBlockProposer { .. }
            | BlockError::ProposalSignatureInvalid
            | BlockError::UnknownValidator(_)
            | BlockError::InvalidSignature
            | BlockError::BlockIsNotLaterThanParent { .. }
            | BlockError::NonLinearParentRoots
            | BlockError::NonLinearSlots
            | BlockError::PerBlockProcessingError(_)
            | BlockError::InconsistentFork { .. }
            | BlockError::Slashable => Err(
                ChainSegmentFailed {
                    reason: FailureReason::InvalidBlock,
                    peer_action: Some(PeerAction::LowToleranceError),
                },
            ),
        }
    }
}

} // verus!
