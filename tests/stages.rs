use block_verification::block::{
    BeaconBlockHeader, ExecutionPayloadSummary, ForkName, SignatureKind, SignatureSet, SignedBeaconBlock,
};
use block_verification::caches::{BeaconProposerCache, Slasher};
use block_verification::chain_spec::ChainSpec;
use block_verification::clock::SlotClock;
use block_verification::errors::{BeaconChainError, BlockError, BlockSlashInfo, ExecutionPayloadError, PayloadStatus};
use block_verification::execution::{
    validator_monitor_epochs, ExecutionData, ExecutionPendingBlock, IntermediateState, StoreOp,
};
use block_verification::fork_choice::{ForkChoiceView, ProtoBlock};
use block_verification::gossip::{GossipVerifiedBlock, ParentData};
use block_verification::hash::Hash256;
use block_verification::import::{
    block_into_execution_pending_block, block_into_execution_pending_block_slashable, IntoGossipVerifiedBlock,
};
use block_verification::signature::ConsensusContext;
use block_verification::observed::{ObservedBlockProducers, SeenBlock};
use block_verification::parent::{
    cheap_state_advance_to_obtain_committees, PreProcessingSnapshot, StateAdvance, StoredBlock, StoredParent,
    StoredState,
};
use block_verification::payload::{
    is_optimistic_candidate_block, payload_verification_outcome, PayloadAnswers, PayloadVerificationStatus,
};
use block_verification::relevancy::{check_block_relevancy, get_block_root, ChainView};
use block_verification::signature_stage::{signature_verify_chain_segment, SignatureVerifiedBlock};

const SLOT_MS: u64 = 12000;

fn root(b: u8) -> Hash256 {
    Hash256 { bytes: [b; 32] }
}

fn spec(slots_per_epoch: u64) -> ChainSpec {
    ChainSpec {
        slots_per_epoch,
        seconds_per_slot: 12,
        genesis_time: 0,
        altair_fork_epoch: None,
        bellatrix_fork_epoch: None,
        capella_fork_epoch: None,
        maximum_gossip_clock_disparity_ms: 500,
        safe_slots_to_import_optimistically: 128,
    }
}

fn parent_proto(slot: u64) -> ProtoBlock {
    ProtoBlock {
        root: root(1),
        slot,
        next_epoch_shuffling_decision_root: root(2),
        execution_invalid: false,
        finalized_descendant: true,
    }
}

fn chain_at(now_ms: u64, slots_per_epoch: u64, parent_slot: u64) -> ChainView {
    ChainView {
        spec: spec(slots_per_epoch),
        clock: SlotClock { genesis_ms: 0, slot_duration_ms: SLOT_MS, now_ms: Some(now_ms) },
        finalized_epoch: 0,
        anchor_slot: None,
        fork_choice: ForkChoiceView { blocks: vec![parent_proto(parent_slot)] },
        stored_blocks: vec![root(1)],
        validator_count: 100,
    }
}

fn block(slot: u64, proposer: u64, body: u8) -> SignedBeaconBlock {
    SignedBeaconBlock {
        header: BeaconBlockHeader {
            slot,
            proposer_index: proposer,
            parent_root: root(1),
            state_root: root(9),
            body_root: root(body),
        },
        proposal_signature_valid: true,
        fork: ForkName::Base,
        signature_sets: vec![
            SignatureSet { kind: SignatureKind::Randao, signer: proposer, valid: true },
            SignatureSet { kind: SignatureKind::Attestation, signer: 3, valid: true },
        ],
        execution_payload: None,
        is_merge_transition: false,
    }
}

fn proposers(slots_per_epoch: u64) -> Vec<u64> {
    (0..slots_per_epoch).map(|i| i % 100).collect()
}

fn parent_data(parent_slot: u64, slots_per_epoch: u64) -> ParentData {
    ParentData {
        cached: None,
        stored: StoredParent {
            block: Some(StoredBlock { slot: parent_slot, state_root: root(8) }),
            state: Some(StoredState { root: root(8), slot: parent_slot }),
        },
        epoch_proposers: proposers(slots_per_epoch),
    }
}

fn snapshot(parent_slot: u64) -> PreProcessingSnapshot {
    PreProcessingSnapshot {
        beacon_block_root: root(1),
        parent_slot,
        parent_state_root: root(8),
        pre_state_slot: parent_slot,
        beacon_state_root: Some(root(8)),
    }
}

fn answers(
    merge_check: Result<(), ExecutionPayloadError>,
    new_payload: Result<PayloadStatus, ExecutionPayloadError>,
    current_slot: u64,
    justified_has_payload: bool,
) -> PayloadAnswers {
    PayloadAnswers { merge_check, new_payload, current_slot, justified_has_payload }
}

fn exec_data(post_state_root: Hash256) -> ExecutionData {
    ExecutionData {
        executor_running: true,
        intermediate_states: vec![
            IntermediateState { root: root(20), already_stored: false },
            IntermediateState { root: root(21), already_stored: false },
        ],
        epoch_summaries: 0,
        payload: PayloadAnswers {
            merge_check: Ok(()),
            new_payload: Ok(PayloadStatus::Valid),
            current_slot: 101,
            justified_has_payload: false,
        },
        block_processing: Ok(post_state_root),
        attestation_outcomes: vec![],
    }
}

fn header_bytes(h: &BeaconBlockHeader) -> Vec<u8> {
    let mut out = Vec::new();
    for v in [h.slot, h.proposer_index] {
        let mut chunk = [0u8; 32];
        chunk[..8].copy_from_slice(&v.to_le_bytes());
        out.extend_from_slice(&chunk);
    }
    for r in [h.parent_root, h.state_root, h.body_root] {
        out.extend_from_slice(&r.bytes);
    }
    out
}

fn gossip(
    b: SignedBeaconBlock,
    chain: &ChainView,
    observed: &mut ObservedBlockProducers,
    slasher: &mut Option<Slasher>,
) -> Result<GossipVerifiedBlock, BlockError> {
    let mut cache = BeaconProposerCache::new();
    GossipVerifiedBlock::new(b, chain, observed, &mut cache, slasher, parent_data(99, 32))
}

#[test]
fn block_root_is_the_tree_hash_of_the_header() {
    let b = block(101, 5, 4);
    let r = get_block_root(&b);
    let expected = tree_hash::merkle_root(&header_bytes(&b.header), 0);
    assert_eq!(r.bytes, expected.0);
    assert_ne!(r.bytes, b.header.body_root.bytes);
}

#[test]
fn zero_header_root_is_the_depth_three_zero_hash() {
    let h = BeaconBlockHeader {
        slot: 0,
        proposer_index: 0,
        parent_root: Hash256::zero(),
        state_root: Hash256::zero(),
        body_root: Hash256::zero(),
    };
    let expected: [u8; 32] = [
        0xc7, 0x80, 0x09, 0xfd, 0xf0, 0x7f, 0xc5, 0x6a, 0x11, 0xf1, 0x22, 0x37, 0x06, 0x58, 0xa3, 0x53, 0xaa,
        0xa5, 0x42, 0xed, 0x63, 0xe4, 0x4c, 0x4b, 0xc1, 0x5f, 0xf4, 0xcd, 0x10, 0x5a, 0xb3, 0x3c,
    ];
    assert_eq!(h.canonical_root().bytes, expected);
}

#[test]
fn block_root_is_stable_across_stages() {
    let b = block(101, 5, 4);
    let chain = chain_at(101 * SLOT_MS + 1000, 32, 99);
    let first = get_block_root(&b);
    let filtered = check_block_relevancy(&b, first, &chain).unwrap();
    let again = b.clone().canonical_root();
    assert_eq!(filtered.bytes, again.bytes);
    let other = block(101, 5, 6);
    assert_ne!(get_block_root(&other).bytes, first.bytes);
}

#[test]
fn genesis_block_is_rejected_without_touching_caches() {
    let chain = chain_at(101 * SLOT_MS, 32, 99);
    let b = block(0, 5, 4);
    let r = check_block_relevancy(&b, get_block_root(&b), &chain);
    assert!(matches!(r, Err(BlockError::GenesisBlock)));

    let mut observed = ObservedBlockProducers::new(0, 1000);
    let root0 = get_block_root(&b);
    let r = block_into_execution_pending_block_slashable(
        b,
        root0,
        &chain,
        &mut observed,
        parent_data(99, 32),
        exec_data(root(9)),
    );
    assert!(matches!(r, Err(BlockSlashInfo::SignatureNotChecked(_, BlockError::GenesisBlock))));
    assert!(observed.observations.is_empty());
}

#[test]
fn relevancy_rejections_in_order() {
    let chain = chain_at(100 * SLOT_MS, 32, 99);
    let b = block(101, 5, 4);
    let r = check_block_relevancy(&b, get_block_root(&b), &chain);
    assert!(matches!(r, Err(BlockError::FutureSlot { present_slot: 100, block_slot: 101 })));

    let far = chain_at(u64::MAX, 32, 99);
    let b = block(4294967296, 5, 4);
    let r = check_block_relevancy(&b, get_block_root(&b), &far);
    assert!(matches!(r, Err(BlockError::BlockSlotLimitReached)));

    let mut fin = chain_at(101 * SLOT_MS, 32, 99);
    fin.finalized_epoch = 3;
    let b = block(96, 5, 4);
    let r = check_block_relevancy(&b, get_block_root(&b), &fin);
    assert!(matches!(r, Err(BlockError::WouldRevertFinalizedSlot { block_slot: 96, finalized_slot: 96 })));

    let mut known = chain_at(101 * SLOT_MS, 32, 99);
    let b = block(101, 5, 4);
    let r0 = get_block_root(&b);
    known.fork_choice.blocks.push(ProtoBlock { root: r0, ..parent_proto(101) });
    let r = check_block_relevancy(&b, r0, &known);
    assert!(matches!(r, Err(BlockError::BlockIsAlreadyKnown)));

    let mut dark = chain_at(101 * SLOT_MS, 32, 99);
    dark.clock.now_ms = None;
    let r = check_block_relevancy(&b, r0, &dark);
    assert!(matches!(r, Err(BlockError::BeaconChainError(BeaconChainError::UnableToReadSlot))));
}

#[test]
fn gossip_accepts_block_within_clock_disparity() {
    let chain = chain_at(101 * SLOT_MS - 400, 32, 99);
    let mut observed = ObservedBlockProducers::new(0, 1000);
    let mut slasher = None;
    let b = block(101, 5, 4);
    let expected_root = get_block_root(&b);
    let g = gossip(b, &chain, &mut observed, &mut slasher).unwrap();
    assert_eq!(g.block_root().bytes, expected_root.bytes);
    assert_eq!(g.consensus_context.proposer_index, Some(5));
    assert_eq!(g.consensus_context.current_block_root.unwrap().bytes, expected_root.bytes);
    assert!(g.parent.is_some());
    assert_eq!(observed.observations.len(), 1);
}

#[test]
fn gossip_rejects_block_beyond_clock_disparity() {
    let chain = chain_at(101 * SLOT_MS - 600, 32, 99);
    let mut observed = ObservedBlockProducers::new(0, 1000);
    let mut slasher = None;
    let r = gossip(block(101, 5, 4), &chain, &mut observed, &mut slasher);
    assert!(matches!(r, Err(BlockError::FutureSlot { present_slot: 100, block_slot: 101 })));
    assert!(observed.observations.is_empty());
}

#[test]
fn equivocating_block_is_slashable_and_reaches_slasher() {
    let chain = chain_at(101 * SLOT_MS + 1000, 32, 99);
    let mut observed = ObservedBlockProducers::new(0, 1000);
    let mut slasher = Some(Slasher::new());
    let first = gossip(block(101, 5, 4), &chain, &mut observed, &mut slasher).unwrap();
    assert_eq!(slasher.as_ref().unwrap().headers.len(), 0);
    let second = gossip(block(101, 5, 6), &chain, &mut observed, &mut slasher);
    assert!(matches!(second, Err(BlockError::Slashable)));
    assert_eq!(slasher.as_ref().unwrap().headers.len(), 1);
    assert_eq!(slasher.as_ref().unwrap().headers[0].body_root.bytes, root(6).bytes);

    let again = gossip(block(101, 5, 4), &chain, &mut observed, &mut slasher);
    assert!(matches!(again, Err(BlockError::Slashable)));
    assert_eq!(slasher.as_ref().unwrap().headers.len(), 2);

    let root0 = first.block_root();
    let sv = SignatureVerifiedBlock::from_gossip_verified_block(first, &chain, parent_data(99, 32)).unwrap();
    let mut fresh = ObservedBlockProducers::new(0, 1000);
    let pending = sv
        .into_execution_pending_block(root0, &chain, &mut fresh, &mut slasher, parent_data(99, 32), exec_data(root(9)))
        .unwrap();
    assert_eq!(pending.block_root.bytes, root0.bytes);
    let headers = &slasher.as_ref().unwrap().headers;
    assert_eq!(headers.len(), 3);
    assert_eq!(headers[2].body_root.bytes, root(4).bytes);
}

#[test]
fn duplicate_gossip_block_is_already_known() {
    let chain = chain_at(101 * SLOT_MS + 1000, 32, 99);
    let mut observed = ObservedBlockProducers::new(0, 1000);
    let mut slasher = None;
    gossip(block(101, 5, 4), &chain, &mut observed, &mut slasher).unwrap();
    let r = gossip(block(101, 5, 4), &chain, &mut observed, &mut slasher);
    assert!(matches!(r, Err(BlockError::BlockIsAlreadyKnown)));
}

#[test]
fn observed_cache_outcomes() {
    let mut observed = ObservedBlockProducers::new(10, 1000);
    let h = BeaconBlockHeader { slot: 11, proposer_index: 4, parent_root: root(1), state_root: root(2), body_root: root(3) };
    assert_eq!(observed.observe_proposal(&root(7), &h), Ok(SeenBlock::UniqueNonSlashable));
    assert_eq!(observed.proposer_has_been_observed(&h, &root(7)), Ok(SeenBlock::Duplicate));
    assert_eq!(observed.observe_proposal(&root(7), &h), Ok(SeenBlock::Duplicate));
    assert_eq!(observed.proposer_has_been_observed(&h, &root(8)), Ok(SeenBlock::Slashable));
    assert_eq!(observed.observe_proposal(&root(8), &h), Ok(SeenBlock::Slashable));
    let other = BeaconBlockHeader { proposer_index: 5, ..h };
    assert_eq!(observed.observe_proposal(&root(8), &other), Ok(SeenBlock::UniqueNonSlashable));
    let old = BeaconBlockHeader { slot: 10, ..h };
    assert!(observed.observe_proposal(&root(9), &old).is_err());
    let high = BeaconBlockHeader { proposer_index: 1000, ..h };
    assert!(observed.observe_proposal(&root(9), &high).is_err());
}

#[test]
fn parent_unknown_hands_block_back() {
    let chain = chain_at(101 * SLOT_MS + 1000, 32, 99);
    let mut observed = ObservedBlockProducers::new(0, 1000);
    let mut slasher = None;
    let mut b = block(101, 5, 4);
    b.header.parent_root = root(0x44);
    let r = gossip(b.clone(), &chain, &mut observed, &mut slasher);
    match r {
        Err(BlockError::ParentUnknown(back)) => {
            assert_eq!(back.header.parent_root.bytes, root(0x44).bytes);
            assert_eq!(back.header.slot, 101);
            assert_eq!(back.header.body_root.bytes, b.header.body_root.bytes);
            assert_eq!(back.signature_sets.len(), b.signature_sets.len());
        },
        _ => panic!("expected ParentUnknown"),
    }
    let mut stored = chain_at(101 * SLOT_MS + 1000, 32, 99);
    stored.stored_blocks.push(root(0x44));
    let r = gossip(b, &stored, &mut observed, &mut slasher);
    assert!(matches!(r, Err(BlockError::NotFinalizedDescendant { .. })));
}

#[test]
fn gossip_error_variants() {
    let chain = chain_at(101 * SLOT_MS + 1000, 32, 99);
    let mut slasher = None;

    let mut observed = ObservedBlockProducers::new(0, 1000);
    let mut b = block(101, 5, 4);
    b.fork = ForkName::Altair;
    let r = gossip(b, &chain, &mut observed, &mut slasher);
    assert!(matches!(r, Err(BlockError::InconsistentFork { fork_at_slot: ForkName::Base, object_fork: ForkName::Altair })));

    let mut b = block(101, 5, 4);
    b.proposal_signature_valid = false;
    let r = gossip(b, &chain, &mut observed, &mut slasher);
    assert!(matches!(r, Err(BlockError::ProposalSignatureInvalid)));

    let r = gossip(block(101, 150, 4), &chain, &mut observed, &mut slasher);
    assert!(matches!(r, Err(BlockError::UnknownValidator(150))));

    let r = gossip(block(101, 6, 4), &chain, &mut observed, &mut slasher);
    assert!(matches!(r, Err(BlockError::IncorrectBlockProposer { block: 6, local_shuffling: 5 })));

    let mut b = block(101, 5, 7);
    b.execution_payload = Some(ExecutionPayloadSummary { timestamp: 5, block_hash: root(3), parent_hash: root(4) });
    let mut observed = ObservedBlockProducers::new(0, 1000);
    let r = gossip(b, &chain, &mut observed, &mut slasher);
    assert!(matches!(
        r,
        Err(BlockError::ExecutionPayloadError(ExecutionPayloadError::InvalidPayloadTimestamp { expected: 1212, found: 5 }))
    ));

    let mut anchored = chain_at(101 * SLOT_MS + 1000, 32, 99);
    anchored.anchor_slot = Some(101);
    let r = gossip(block(101, 5, 4), &anchored, &mut observed, &mut slasher);
    assert!(matches!(r, Err(BlockError::WeakSubjectivityConflict)));

    let late_parent = chain_at(101 * SLOT_MS + 1000, 32, 101);
    let r = gossip(block(101, 5, 4), &late_parent, &mut observed, &mut slasher);
    assert!(matches!(r, Err(BlockError::BlockIsNotLaterThanParent { block_slot: 101, parent_slot: 101 })));
}

#[test]
fn state_root_mismatch_is_reported() {
    let chain = chain_at(101 * SLOT_MS + 1000, 32, 99);
    let mut observed = ObservedBlockProducers::new(0, 1000);
    let b = block(101, 5, 4);
    let r0 = get_block_root(&b);
    let ctx = block_verification::signature::ConsensusContext::new(101);
    let r = ExecutionPendingBlock::from_signature_verified_components(
        b,
        r0,
        snapshot(99),
        ctx,
        &chain,
        &mut observed,
        exec_data(root(0x33)),
    );
    match r {
        Err(BlockError::StateRootMismatch { block, local }) => {
            assert_eq!(block.bytes, root(9).bytes);
            assert_eq!(local.bytes, root(0x33).bytes);
        },
        _ => panic!("expected StateRootMismatch"),
    }
}

#[test]
fn execution_pending_stages_temporary_states() {
    let chain = chain_at(101 * SLOT_MS + 1000, 32, 99);
    let mut observed = ObservedBlockProducers::new(0, 1000);
    let b = block(101, 5, 4);
    let r0 = get_block_root(&b);
    let ctx = block_verification::signature::ConsensusContext::new(101);
    let v = ExecutionPendingBlock::from_signature_verified_components(
        b,
        r0,
        snapshot(99),
        ctx,
        &chain,
        &mut observed,
        exec_data(root(9)),
    )
    .unwrap();
    assert_eq!(v.confirmed_state_roots.len(), 1);
    assert_eq!(v.confirmed_state_roots[0].bytes, root(21).bytes);
    assert_eq!(v.state_writes.len(), 2);
    assert!(matches!(v.state_writes[0], StoreOp::PutStateSummary { slot: 100, .. }));
    assert!(matches!(v.state_writes[1], StoreOp::PutStateTemporaryFlag(_)));
    assert!(v.block.header.slot > v.parent_slot);
    assert_eq!(observed.observations.len(), 1);
}

#[test]
fn execution_pending_error_variants() {
    let chain = chain_at(101 * SLOT_MS + 1000, 32, 99);
    let ctx = block_verification::signature::ConsensusContext::new(101);
    let b = block(101, 5, 4);
    let r0 = get_block_root(&b);

    let mut invalid_parent = chain_at(101 * SLOT_MS + 1000, 32, 99);
    invalid_parent.fork_choice.blocks[0].execution_invalid = true;
    let mut observed = ObservedBlockProducers::new(0, 1000);
    let r = ExecutionPendingBlock::from_signature_verified_components(
        b.clone(), r0, snapshot(99), ctx, &invalid_parent, &mut observed, exec_data(root(9)),
    );
    assert!(matches!(r, Err(BlockError::ParentExecutionPayloadInvalid { .. })));

    let mut data = exec_data(root(9));
    data.executor_running = false;
    let r = ExecutionPendingBlock::from_signature_verified_components(
        b.clone(), r0, snapshot(99), ctx, &chain, &mut observed, data,
    );
    assert!(matches!(r, Err(BlockError::BeaconChainError(BeaconChainError::RuntimeShutdown))));

    let mut bad = snapshot(99);
    bad.pre_state_slot = 98;
    let r = ExecutionPendingBlock::from_signature_verified_components(
        b.clone(), r0, bad, ctx, &chain, &mut observed, exec_data(root(9)),
    );
    assert!(matches!(r, Err(BlockError::BeaconChainError(BeaconChainError::BadPreState { state_slot: 98, .. }))));

    let mut short = exec_data(root(9));
    short.intermediate_states.truncate(1);
    let r = ExecutionPendingBlock::from_signature_verified_components(
        b.clone(), r0, snapshot(99), ctx, &chain, &mut observed, short,
    );
    assert!(matches!(r, Err(BlockError::BeaconChainError(BeaconChainError::MissingIntermediateState(100)))));

    let mut failing = exec_data(root(9));
    failing.attestation_outcomes = vec![
        block_verification::execution::AttestationOutcome::Invalid,
        block_verification::execution::AttestationOutcome::Failed { reason: String::from("store") },
    ];
    let r = ExecutionPendingBlock::from_signature_verified_components(
        b.clone(), r0, snapshot(99), ctx, &chain, &mut observed, failing,
    );
    assert!(matches!(r, Err(BlockError::BeaconChainError(BeaconChainError::ForkChoice { .. }))));

    let mut ignored = exec_data(root(9));
    ignored.attestation_outcomes = vec![block_verification::execution::AttestationOutcome::Invalid];
    let mut fresh = ObservedBlockProducers::new(0, 1000);
    let r = ExecutionPendingBlock::from_signature_verified_components(
        b, r0, snapshot(99), ctx, &chain, &mut fresh, ignored,
    );
    assert!(r.is_ok());
}

#[test]
fn optimistic_import_ineligible_is_not_penalised() {
    assert!(!is_optimistic_candidate_block(200, 250, 128, false));
    assert!(is_optimistic_candidate_block(100, 250, 128, false));
    assert!(is_optimistic_candidate_block(200, 250, 128, true));
    let r = payload_verification_outcome(false, 200, 128, answers(Ok(()), Ok(PayloadStatus::Syncing), 250, false));
    match r {
        Err(BlockError::ExecutionPayloadError(e)) => {
            assert!(matches!(e, ExecutionPayloadError::UnverifiedNonOptimisticCandidate));
            assert!(!e.penalize_peer());
        },
        _ => panic!("expected UnverifiedNonOptimisticCandidate"),
    }
    let ok = payload_verification_outcome(true, 100, 128, answers(Ok(()), Ok(PayloadStatus::Syncing), 250, false)).unwrap();
    assert_eq!(ok.payload_verification_status, PayloadVerificationStatus::Optimistic);
    assert!(ok.is_valid_merge_transition_block);
    let valid = payload_verification_outcome(false, 200, 128, answers(Ok(()), Ok(PayloadStatus::Valid), 250, false)).unwrap();
    assert_eq!(valid.payload_verification_status, PayloadVerificationStatus::Verified);
    let rejected = payload_verification_outcome(
        false,
        200,
        128,
        answers(Ok(()), Ok(PayloadStatus::Invalid { latest_valid_hash: None }), 250, true),
    );
    assert!(matches!(rejected, Err(BlockError::ExecutionPayloadError(ExecutionPayloadError::RejectedByExecutionEngine { .. }))));
    let merge = payload_verification_outcome(
        true,
        200,
        128,
        answers(
            Err(ExecutionPayloadError::InvalidTerminalPoWBlock { parent_hash: root(1) }),
            Ok(PayloadStatus::Valid),
            250,
            true,
        ),
    );
    assert!(matches!(merge, Err(BlockError::ExecutionPayloadError(ExecutionPayloadError::InvalidTerminalPoWBlock { .. }))));
}

#[test]
fn penalize_peer_table() {
    let cases = vec![
        (ExecutionPayloadError::NoExecutionConnection, false),
        (ExecutionPayloadError::RequestFailed { reason: String::from("timeout") }, false),
        (ExecutionPayloadError::RejectedByExecutionEngine { status: PayloadStatus::InvalidBlockHash }, false),
        (ExecutionPayloadError::InvalidPayloadTimestamp { expected: 1, found: 2 }, true),
        (ExecutionPayloadError::InvalidTerminalPoWBlock { parent_hash: root(1) }, false),
        (ExecutionPayloadError::InvalidActivationEpoch { activation_epoch: 5, epoch: 4 }, false),
        (ExecutionPayloadError::InvalidTerminalBlockHash { terminal_block_hash: root(1), payload_parent_hash: root(2) }, false),
        (ExecutionPayloadError::UnverifiedNonOptimisticCandidate, false),
    ];
    for (e, expected) in cases {
        assert_eq!(e.penalize_peer(), expected);
        assert_eq!(e.penalize_peer(), expected);
    }
}

fn segment(flip: Option<usize>) -> Vec<(Hash256, SignedBeaconBlock)> {
    (0..33u64)
        .map(|i| {
            let slot = 65 + i;
            let mut b = block(slot, slot % 64, (i % 200) as u8);
            if flip == Some(i as usize) {
                b.signature_sets[1].valid = false;
            }
            (get_block_root(&b), b)
        })
        .collect()
}

#[test]
fn chain_segment_with_valid_signatures_is_accepted() {
    let chain = chain_at(100 * SLOT_MS, 64, 64);
    let blocks = segment(None);
    let roots: Vec<[u8; 32]> = blocks.iter().map(|(r, _)| r.bytes).collect();
    let v = signature_verify_chain_segment(blocks, &chain, parent_data(64, 64)).unwrap();
    assert_eq!(v.len(), 33);
    assert!(v[0].parent.is_some());
    assert!(v[1..].iter().all(|s| s.parent.is_none()));
    for (i, s) in v.iter().enumerate() {
        assert_eq!(s.block_root().bytes, roots[i]);
        assert_eq!(s.consensus_context.proposer_index, Some(s.block.header.proposer_index));
        assert_eq!(s.consensus_context.current_block_root.unwrap().bytes, roots[i]);
    }
}

#[test]
fn chain_segment_with_one_bad_signature_is_rejected() {
    let chain = chain_at(100 * SLOT_MS, 64, 64);
    let r = signature_verify_chain_segment(segment(Some(17)), &chain, parent_data(64, 64));
    assert!(matches!(r, Err(BlockError::InvalidSignature)));
}

#[test]
fn chain_segment_agrees_with_single_block_checks() {
    let chain = chain_at(100 * SLOT_MS, 64, 64);
    for (r, b) in segment(None) {
        assert!(SignatureVerifiedBlock::new(b, r, &chain, parent_data(64, 64)).is_ok());
    }
    let bad = segment(Some(17));
    let (r, b) = bad[17].clone();
    let single = SignatureVerifiedBlock::new(b, r, &chain, parent_data(64, 64));
    assert!(matches!(single, Err(BlockError::InvalidSignature)));
    let empty = signature_verify_chain_segment(vec![], &chain, parent_data(64, 64)).unwrap();
    assert!(empty.is_empty());
}

#[test]
fn signature_stage_error_variants() {
    let chain = chain_at(101 * SLOT_MS, 32, 99);
    let mut b = block(101, 5, 4);
    b.signature_sets.push(SignatureSet { kind: SignatureKind::VoluntaryExit, signer: 500, valid: true });
    let r0 = get_block_root(&b);
    let r = SignatureVerifiedBlock::new(b, r0, &chain, parent_data(99, 32));
    assert!(matches!(r, Err(BlockError::BeaconChainError(BeaconChainError::ValidatorUnknown(500)))));

    let b = block(101, 5, 4);
    let mut data = parent_data(99, 32);
    data.epoch_proposers.truncate(3);
    let r = SignatureVerifiedBlock::new(b.clone(), r0, &chain, data);
    assert!(matches!(r, Err(BlockError::BeaconChainError(BeaconChainError::NoProposerForSlot(101)))));

    let mut data = parent_data(99, 32);
    data.stored.block = None;
    let r = SignatureVerifiedBlock::new(b.clone(), r0, &chain, data);
    assert!(matches!(r, Err(BlockError::BeaconChainError(BeaconChainError::MissingBeaconBlock(_)))));

    let mut data = parent_data(99, 32);
    data.stored.state = None;
    let r = SignatureVerifiedBlock::check_slashable(b, r0, &chain, data);
    assert!(matches!(r, Err(BlockSlashInfo::SignatureNotChecked(_, BlockError::BeaconChainError(BeaconChainError::MissingParentState(_))))));

    let mut b = block(101, 5, 4);
    b.proposal_signature_valid = false;
    let r = SignatureVerifiedBlock::check_slashable(b, r0, &chain, parent_data(99, 32));
    assert!(matches!(r, Err(BlockSlashInfo::SignatureNotChecked(_, BlockError::InvalidSignature))));
}

#[test]
fn cheap_advance_plans() {
    assert!(matches!(cheap_state_advance_to_obtain_committees(99, 101, 32), Ok(StateAdvance::InPlace)));
    assert!(matches!(cheap_state_advance_to_obtain_committees(140, 130, 32), Ok(StateAdvance::InPlace)));
    assert!(matches!(cheap_state_advance_to_obtain_committees(90, 130, 32), Ok(StateAdvance::CopyAdvancedTo(128))));
    assert!(matches!(
        cheap_state_advance_to_obtain_committees(170, 130, 32),
        Err(BlockError::BlockIsNotLaterThanParent { block_slot: 130, parent_slot: 170 })
    ));
}

fn promote<B: block_verification::import::IntoExecutionPendingBlock>(
    b: B,
    chain: &ChainView,
) -> Result<ExecutionPendingBlock, BlockSlashInfo<BlockError>> {
    let r0 = get_block_root(b.block());
    let mut observed = ObservedBlockProducers::new(0, 1000);
    b.into_execution_pending_block_slashable(r0, chain, &mut observed, parent_data(99, 32), exec_data(root(9)))
}

#[test]
fn every_stage_promotes_to_execution_pending() {
    let chain = chain_at(101 * SLOT_MS + 1000, 32, 99);
    let raw = promote(block(101, 5, 4), &chain).unwrap();
    assert_eq!(raw.block.header.body_root.bytes, root(4).bytes);

    let mut observed = ObservedBlockProducers::new(0, 1000);
    let mut cache = BeaconProposerCache::new();
    let mut slasher = None;
    let g = block(101, 5, 4)
        .into_gossip_verified_block(&chain, &mut observed, &mut cache, &mut slasher, parent_data(99, 32))
        .unwrap();
    assert_eq!(g.inner().header.slot, 101);
    let g = g.into_gossip_verified_block(&chain, &mut observed, &mut cache, &mut slasher, parent_data(99, 32)).unwrap();
    let root0 = g.block_root();
    let from_gossip = promote(g, &chain).unwrap();
    assert_eq!(from_gossip.block_root.bytes, root0.bytes);
    assert_eq!(from_gossip.consensus_context.proposer_index, Some(5));

    let sv = SignatureVerifiedBlock::new(block(101, 5, 4), root0, &chain, parent_data(99, 32)).unwrap();
    let from_sv = promote(sv, &chain).unwrap();
    assert_eq!(from_sv.state_root.bytes, root(9).bytes);

    let mut bad = block(101, 5, 4);
    bad.signature_sets[0].valid = false;
    assert!(matches!(promote(bad, &chain), Err(BlockSlashInfo::SignatureNotChecked(_, BlockError::InvalidSignature))));
}

#[test]
fn validator_monitor_gets_recent_summaries_only() {
    assert_eq!(validator_monitor_epochs(101, Some(110), 2, 32), vec![1, 2]);
    assert_eq!(validator_monitor_epochs(32, Some(11 * 32), 1, 32), vec![0]);
    assert!(validator_monitor_epochs(32, Some(12 * 32), 1, 32).is_empty());
    assert!(validator_monitor_epochs(101, None, 2, 32).is_empty());
    assert_eq!(validator_monitor_epochs(40, Some(40), 3, 32), vec![0, 0, 0]);
}

#[test]
fn execution_pending_checks_and_sets_context_proposer() {
    let chain = chain_at(101 * SLOT_MS + 1000, 32, 99);
    let b = block(101, 5, 4);
    let r0 = get_block_root(&b);
    let wrong = ConsensusContext::new(101).set_proposer_index(6);
    let mut observed = ObservedBlockProducers::new(0, 1000);
    let r = ExecutionPendingBlock::from_signature_verified_components(
        b.clone(), r0, snapshot(99), wrong, &chain, &mut observed, exec_data(root(9)),
    );
    assert!(matches!(r, Err(BlockError::IncorrectBlockProposer { block: 5, local_shuffling: 6 })));

    let mut fresh = ObservedBlockProducers::new(0, 1000);
    let v = ExecutionPendingBlock::from_signature_verified_components(
        b, r0, snapshot(99), ConsensusContext::new(101), &chain, &mut fresh, exec_data(root(9)),
    )
    .unwrap();
    assert_eq!(v.consensus_context.proposer_index, Some(5));
    assert_eq!(v.consensus_context.current_block_root.unwrap().bytes, r0.bytes);
    assert!(matches!(
        v.payload_verification,
        Ok(o) if o.payload_verification_status == PayloadVerificationStatus::Verified
    ));
}

#[test]
fn execution_pending_carries_optimistic_refusal() {
    let chain = chain_at(101 * SLOT_MS + 1000, 32, 99);
    let b = block(101, 5, 4);
    let r0 = get_block_root(&b);
    let mut data = exec_data(root(9));
    data.payload.new_payload = Ok(PayloadStatus::Syncing);
    data.payload.current_slot = 150;
    let mut observed = ObservedBlockProducers::new(0, 1000);
    let v = ExecutionPendingBlock::from_signature_verified_components(
        b, r0, snapshot(99), ConsensusContext::new(101), &chain, &mut observed, data,
    )
    .unwrap();
    match v.payload_verification {
        Err(BlockError::ExecutionPayloadError(e)) => {
            assert!(matches!(e, ExecutionPayloadError::UnverifiedNonOptimisticCandidate));
            assert!(!e.penalize_peer());
        },
        _ => panic!("expected UnverifiedNonOptimisticCandidate"),
    }
    let b = block(101, 5, 4);
    let mut data = exec_data(root(9));
    data.payload.new_payload = Ok(PayloadStatus::Syncing);
    data.payload.current_slot = 229;
    let mut observed = ObservedBlockProducers::new(0, 1000);
    let v = ExecutionPendingBlock::from_signature_verified_components(
        b, r0, snapshot(99), ConsensusContext::new(101), &chain, &mut observed, data,
    )
    .unwrap();
    assert!(matches!(
        v.payload_verification,
        Ok(o) if o.payload_verification_status == PayloadVerificationStatus::Optimistic
    ));
}

#[test]
fn raw_and_gossip_promotions_feed_the_slasher() {
    let chain = chain_at(101 * SLOT_MS + 1000, 32, 99);
    let mut slasher = Some(Slasher::new());
    let b = block(101, 5, 4);
    let r0 = get_block_root(&b);
    let mut observed = ObservedBlockProducers::new(0, 1000);
    let v = block_into_execution_pending_block(b, r0, &chain, &mut observed, &mut slasher, parent_data(99, 32), exec_data(root(9)))
        .unwrap();
    assert_eq!(v.block_root.bytes, r0.bytes);
    assert_eq!(slasher.as_ref().unwrap().headers.len(), 1);

    let mut bad = block(101, 5, 4);
    bad.header.state_root = root(0x66);
    let rb = get_block_root(&bad);
    let mut observed = ObservedBlockProducers::new(0, 1000);
    let r = block_into_execution_pending_block(bad, rb, &chain, &mut observed, &mut slasher, parent_data(99, 32), exec_data(root(9)));
    assert!(matches!(r, Err(BlockError::StateRootMismatch { .. })));
    assert_eq!(slasher.as_ref().unwrap().headers.len(), 2);

    let mut observed = ObservedBlockProducers::new(0, 1000);
    let mut cache = BeaconProposerCache::new();
    let mut none = None;
    let g = GossipVerifiedBlock::new(block(101, 7, 8), &chain, &mut observed, &mut cache, &mut none, parent_data(99, 32));
    assert!(g.is_err());
    let mut observed = ObservedBlockProducers::new(0, 1000);
    let g = GossipVerifiedBlock::new(block(101, 5, 8), &chain, &mut observed, &mut cache, &mut none, parent_data(99, 32))
        .unwrap();
    let rg = g.block_root();
    let mut observed2 = ObservedBlockProducers::new(0, 1000);
    g.into_execution_pending_block(rg, &chain, &mut observed2, &mut slasher, parent_data(99, 32), exec_data(root(9)))
        .unwrap();
    let headers = &slasher.as_ref().unwrap().headers;
    assert_eq!(headers.len(), 3);
    assert_eq!(headers[2].body_root.bytes, root(8).bytes);
    assert_eq!(observed2.observations.len(), 1);
}

#[test]
fn finalization_is_checked_before_anchor_on_every_path() {
    let mut chain = chain_at(101 * SLOT_MS + 1000, 32, 99);
    chain.anchor_slot = Some(200);
    chain.finalized_epoch = 4;
    let b = block(101, 5, 4);
    let r0 = get_block_root(&b);
    let r = check_block_relevancy(&b, r0, &chain);
    assert!(matches!(r, Err(BlockError::WouldRevertFinalizedSlot { block_slot: 101, finalized_slot: 128 })));
    let mut observed = ObservedBlockProducers::new(0, 1000);
    let mut slasher = None;
    let g = gossip(block(101, 5, 4), &chain, &mut observed, &mut slasher);
    assert!(matches!(g, Err(BlockError::WouldRevertFinalizedSlot { block_slot: 101, finalized_slot: 128 })));
    let raw = block_into_execution_pending_block_slashable(
        b.clone(), r0, &chain, &mut observed, parent_data(99, 32), exec_data(root(9)),
    );
    assert!(matches!(raw, Err(BlockSlashInfo::SignatureNotChecked(_, BlockError::WouldRevertFinalizedSlot { .. }))));

    chain.finalized_epoch = 0;
    assert_eq!(check_block_relevancy(&b, r0, &chain).unwrap().bytes, r0.bytes);
    let g = gossip(block(101, 5, 4), &chain, &mut observed, &mut slasher);
    assert!(matches!(g, Err(BlockError::WeakSubjectivityConflict)));
    let raw = block_into_execution_pending_block_slashable(
        b, r0, &chain, &mut observed, parent_data(99, 32), exec_data(root(9)),
    );
    assert!(matches!(raw, Err(BlockSlashInfo::SignatureNotChecked(_, BlockError::WeakSubjectivityConflict))));
}
