use block_verification::block::{BeaconBlockHeader, ForkName, SignedBeaconBlock};
use block_verification::clock::SlotClock;
use block_verification::errors::{BeaconChainError, BlockError, ExecutionPayloadError, ObserveError};
use block_verification::hash::Hash256;
use block_verification::observed::SeenBlock;
use block_verification::observed::ObservedBlockProducers;
use block_verification::relevancy::get_block_root;
use block_verification::sync::{
    block_is_late, blocks_in_processing_order, rpc_block_action, BackfillError, BatchProcessResult,
    ChainSegmentFailed, ChainSegmentProcessId, ChainSegmentResult, DuplicateCache, FailureReason,
    HistoricalBlockError, NetworkBeaconProcessor, PeerAction, RpcBlockAction,
};

fn root(b: u8) -> Hash256 {
    Hash256 { bytes: [b; 32] }
}

fn block(slot: u64) -> SignedBeaconBlock {
    SignedBeaconBlock {
        header: BeaconBlockHeader {
            slot,
            proposer_index: 1,
            parent_root: root(1),
            state_root: root(2),
            body_root: root(3),
        },
        proposal_signature_valid: true,
        fork: ForkName::Base,
        signature_sets: vec![],
        execution_payload: None,
        is_merge_transition: false,
    }
}

fn processor(now_ms: u64) -> NetworkBeaconProcessor {
    NetworkBeaconProcessor {
        duplicate_cache: DuplicateCache::new(),
        observed: ObservedBlockProducers::new(0, 1000),
        clock: SlotClock { genesis_ms: 0, slot_duration_ms: 12000, now_ms: Some(now_ms) },
    }
}

fn handle_failed_chain_segment(e: BlockError) -> Result<(), ChainSegmentFailed> {
    processor(0).handle_failed_chain_segment(e)
}

fn penalty(r: Result<(), ChainSegmentFailed>) -> Option<Option<PeerAction>> {
    r.err().map(|e| e.peer_action)
}

#[test]
fn failed_segment_classification() {
    let low = Some(Some(PeerAction::LowToleranceError));
    assert_eq!(penalty(handle_failed_chain_segment(BlockError::ParentUnknown(block(5)))), low);
    assert_eq!(handle_failed_chain_segment(BlockError::BlockIsAlreadyKnown), Ok(()));
    assert_eq!(
        handle_failed_chain_segment(BlockError::FutureSlot { present_slot: 10, block_slot: 12 }),
        Err(ChainSegmentFailed {
            reason: FailureReason::FutureSlot { present_slot: 10, block_slot: 12 },
            peer_action: Some(PeerAction::LowToleranceError),
        })
    );
    assert_eq!(
        handle_failed_chain_segment(BlockError::WouldRevertFinalizedSlot { block_slot: 3, finalized_slot: 32 }),
        Ok(())
    );
    assert_eq!(handle_failed_chain_segment(BlockError::GenesisBlock), Ok(()));
    assert_eq!(
        penalty(handle_failed_chain_segment(BlockError::BeaconChainError(BeaconChainError::RuntimeShutdown))),
        Some(None)
    );
    assert_eq!(
        penalty(handle_failed_chain_segment(BlockError::ExecutionPayloadError(
            ExecutionPayloadError::NoExecutionConnection
        ))),
        Some(None)
    );
    assert_eq!(
        handle_failed_chain_segment(BlockError::ExecutionPayloadError(
            ExecutionPayloadError::InvalidPayloadTimestamp { expected: 1, found: 2 }
        )),
        Err(ChainSegmentFailed {
            reason: FailureReason::InvalidExecutionPayload,
            peer_action: Some(PeerAction::LowToleranceError),
        })
    );
    assert_eq!(
        penalty(handle_failed_chain_segment(BlockError::ParentExecutionPayloadInvalid { parent_root: root(1) })),
        low
    );
    for e in vec![
        BlockError::InvalidSignature,
        BlockError::ProposalSignatureInvalid,
        BlockError::StateRootMismatch { block: root(1), local: root(2) },
        BlockError::IncorrectBlockProposer { block: 1, local_shuffling: 2 },
        BlockError::NonLinearParentRoots,
        BlockError::NonLinearSlots,
        BlockError::BlockIsNotLaterThanParent { block_slot: 1, parent_slot: 1 },
        BlockError::InconsistentFork { fork_at_slot: ForkName::Base, object_fork: ForkName::Altair },
        BlockError::BlockSlotLimitReached,
        BlockError::UnknownValidator(3),
        BlockError::Slashable,
    ] {
        assert_eq!(
            handle_failed_chain_segment(e),
            Err(ChainSegmentFailed { reason: FailureReason::InvalidBlock, peer_action: Some(PeerAction::LowToleranceError) })
        );
    }
    assert_eq!(
        handle_failed_chain_segment(BlockError::NotFinalizedDescendant { block_parent_root: root(1) }),
        Err(ChainSegmentFailed { reason: FailureReason::ConflictsWithFinality, peer_action: None })
    );
    assert_eq!(
        handle_failed_chain_segment(BlockError::WeakSubjectivityConflict),
        Err(ChainSegmentFailed { reason: FailureReason::ConflictsWithFinality, peer_action: None })
    );
}

#[test]
fn process_blocks_outcomes() {
    assert_eq!(processor(0).process_blocks(ChainSegmentResult::Successful { imported_blocks: 4 }), (4, Ok(())));
    let (n, r) = processor(0).process_blocks(ChainSegmentResult::Failed {
        imported_blocks: 2,
        error: BlockError::ParentUnknown(block(3)),
    });
    assert_eq!(n, 2);
    assert_eq!(penalty(r), Some(Some(PeerAction::LowToleranceError)));
}

#[test]
fn backfill_outcomes() {
    assert_eq!(processor(0).process_backfill_blocks(Ok(7)), (7, Ok(())));
    let low = Some(PeerAction::LowToleranceError);
    let cases = vec![
        (
            HistoricalBlockError::MismatchedBlockRoot { block_root: root(1), expected_block_root: root(2) },
            FailureReason::MismatchedBlockRoot,
            low,
        ),
        (HistoricalBlockError::InvalidSignature, FailureReason::InvalidSignature, low),
        (HistoricalBlockError::SignatureSet { reason: String::from("bad") }, FailureReason::InvalidSignature, low),
        (HistoricalBlockError::ValidatorPubkeyCacheTimeout, FailureReason::PubkeyCacheTimeout, None),
        (HistoricalBlockError::NoAnchorInfo, FailureReason::NoAnchorInfo, None),
        (HistoricalBlockError::IndexOutOfBounds, FailureReason::LogicError, None),
        (HistoricalBlockError::BlockOutOfRange { slot: 1, oldest_block_slot: 2 }, FailureReason::UnexpectedError, None),
    ];
    for (e, reason, peer_action) in cases {
        assert_eq!(
            processor(0).process_backfill_blocks(Err(BackfillError::Historical(e))),
            (0, Err(ChainSegmentFailed { reason, peer_action }))
        );
    }
    assert_eq!(
        processor(0).process_backfill_blocks(Err(BackfillError::Other(BeaconChainError::UnableToReadSlot))),
        (0, Err(ChainSegmentFailed { reason: FailureReason::Internal, peer_action: None }))
    );
}

#[test]
fn batch_results_by_segment_kind() {
    let fault = ChainSegmentFailed { reason: FailureReason::UnknownParent, peer_action: Some(PeerAction::LowToleranceError) };
    let internal = ChainSegmentFailed { reason: FailureReason::Internal, peer_action: None };
    let range = ChainSegmentProcessId::RangeBatchId(1, 2);
    assert_eq!(processor(0).process_chain_segment(range, 3, (3, Ok(()))), BatchProcessResult::Success { was_non_empty: true });
    assert_eq!(processor(0).process_chain_segment(range, 0, (0, Ok(()))), BatchProcessResult::Success { was_non_empty: false });
    assert_eq!(
        processor(0).process_chain_segment(range, 3, (1, Err(fault))),
        BatchProcessResult::FaultyFailure { imported_blocks: true, penalty: PeerAction::LowToleranceError }
    );
    assert_eq!(processor(0).process_chain_segment(range, 3, (1, Err(internal))), BatchProcessResult::NonFaultyFailure);
    let back = ChainSegmentProcessId::BackSyncBatchId(4);
    assert_eq!(
        processor(0).process_chain_segment(back, 3, (2, Err(fault))),
        BatchProcessResult::FaultyFailure { imported_blocks: false, penalty: PeerAction::LowToleranceError }
    );
    assert_eq!(processor(0).process_chain_segment(back, 3, (3, Ok(()))), BatchProcessResult::Success { was_non_empty: true });
    let lookup = ChainSegmentProcessId::ParentLookup(root(9));
    assert_eq!(processor(0).process_chain_segment(lookup, 3, (0, Ok(()))), BatchProcessResult::Success { was_non_empty: false });
    assert_eq!(processor(0).process_chain_segment(lookup, 3, (2, Ok(()))), BatchProcessResult::Success { was_non_empty: true });
    assert_eq!(
        processor(0).process_chain_segment(lookup, 3, (0, Err(fault))),
        BatchProcessResult::FaultyFailure { imported_blocks: false, penalty: PeerAction::LowToleranceError }
    );
}

#[test]
fn parent_lookup_blocks_are_reversed() {
    let blocks = vec![block(9), block(8), block(7)];
    let lookup = blocks_in_processing_order(ChainSegmentProcessId::ParentLookup(root(1)), blocks.clone());
    let slots: Vec<u64> = lookup.iter().map(|b| b.header.slot).collect();
    assert_eq!(slots, vec![7, 8, 9]);
    let range = blocks_in_processing_order(ChainSegmentProcessId::RangeBatchId(0, 0), blocks);
    let slots: Vec<u64> = range.iter().map(|b| b.header.slot).collect();
    assert_eq!(slots, vec![9, 8, 7]);
}

#[test]
fn duplicate_cache_claims_and_releases() {
    let mut cache = DuplicateCache::new();
    assert!(cache.check_and_insert(&root(1)));
    assert!(!cache.check_and_insert(&root(1)));
    assert!(cache.check_and_insert(&root(2)));
    cache.remove(&root(1));
    assert!(cache.check_and_insert(&root(1)));
    assert!(!cache.check_and_insert(&root(2)));
}

#[test]
fn rpc_blocks_requeued_when_busy_or_early_equivocation() {
    assert_eq!(rpc_block_action(false, true, Ok(SeenBlock::UniqueNonSlashable)), RpcBlockAction::Requeue);
    assert_eq!(rpc_block_action(true, false, Ok(SeenBlock::Slashable)), RpcBlockAction::Requeue);
    assert_eq!(rpc_block_action(true, true, Ok(SeenBlock::Slashable)), RpcBlockAction::Import);
    assert_eq!(rpc_block_action(true, false, Ok(SeenBlock::Duplicate)), RpcBlockAction::Import);
    assert_eq!(
        rpc_block_action(true, false, Err(ObserveError::ValidatorIndexTooHigh { index: 9 })),
        RpcBlockAction::Import
    );
    assert_eq!(
        rpc_block_action(true, false, Err(ObserveError::FinalizedBlock { slot: 1, finalized_slot: 2 })),
        RpcBlockAction::Import
    );
}

#[test]
fn lateness_against_the_attestation_deadline() {
    let at = |now| SlotClock { genesis_ms: 0, slot_duration_ms: 12000, now_ms: now };
    assert!(!block_is_late(&at(Some(10 * 12000 + 3999)), 10));
    assert!(!block_is_late(&at(Some(10 * 12000 + 4000)), 10));
    assert!(block_is_late(&at(Some(10 * 12000 + 4001)), 10));
    assert!(!block_is_late(&at(Some(9 * 12000)), 10));
    assert!(block_is_late(&at(None), 10));
}

#[test]
fn clock_readings() {
    let c = SlotClock { genesis_ms: 1000, slot_duration_ms: 12000, now_ms: Some(1000 + 100 * 12000 + 11600) };
    assert_eq!(c.now(), Some(100));
    assert_eq!(c.now_with_future_tolerance(500), Some(101));
    assert_eq!(c.now_with_future_tolerance(300), Some(100));
    assert_eq!(c.start_of(101), Some(1000 + 101 * 12000));
    let before = SlotClock { genesis_ms: 1000, slot_duration_ms: 12000, now_ms: Some(999) };
    assert_eq!(before.now(), None);
    let edge = SlotClock { genesis_ms: 0, slot_duration_ms: 12000, now_ms: Some(u64::MAX) };
    assert_eq!(edge.now_with_future_tolerance(1), None);
}

#[test]
fn rpc_block_claims_duplicate_cache_and_requeues_early_equivocation() {
    let mut p = processor(10 * 12000 + 1000);
    let b = block(10);
    let r = get_block_root(&b);
    assert_eq!(p.process_rpc_block(&r, &b), RpcBlockAction::Import);
    assert_eq!(p.process_rpc_block(&r, &b), RpcBlockAction::Requeue);
    p.finish_rpc_block(&r);

    let first = block(10);
    let first_root = get_block_root(&first);
    p.observed.observe_proposal(&first_root, &first.header).unwrap();
    let mut other = block(10);
    other.header.body_root = root(0x55);
    let other_root = get_block_root(&other);
    assert_eq!(p.process_rpc_block(&other_root, &other), RpcBlockAction::Requeue);
    assert!(p.duplicate_cache.check_and_insert(&other_root));

    let mut late = processor(10 * 12000 + 5000);
    late.observed.observe_proposal(&first_root, &first.header).unwrap();
    assert_eq!(late.process_rpc_block(&other_root, &other), RpcBlockAction::Import);
    assert!(!late.duplicate_cache.check_and_insert(&other_root));
}
