use vstd::prelude::*;
use crate::block::{header_root, SignedBeaconBlock};
use crate::chain_spec::{epoch_of, slot_epoch, MAXIMUM_BLOCK_SLOT_NUMBER};
use crate::errors::{BeaconChainError, BlockError, BlockProcessingError};
use crate::gossip::records_proposal;
use crate::hash::Hash256;
use crate::observed::ObservedBlockProducers;
use crate::parent::PreProcessingSnapshot;
use crate::relevancy::{check_block_relevancy, relevancy_error, ChainView};
use crate::signature::ConsensusContext;
use crate::payload::{payload_outcome_spec, payload_verification_outcome, PayloadAnswers, PayloadVerificationOutcome};

verus! {

/// How many epochs back the validator monitor is told of epoch summaries.
pub const VALIDATOR_MONITOR_HISTORIC_EPOCHS: u64 = 10;

/// The epochs of the `count` epoch summaries produced while catching up to a
/// block at `block_slot`, oldest first, when the block is recent enough for
/// the validator monitor: none where the clock cannot be read or the block
/// is more than the historic window behind it.
pub open spec fn monitor_epochs_spec(block_slot: u64, present_slot: Option<u64>, count: nat, slots_per_epoch: u64) -> Seq<u64> {
    let block_epoch = epoch_of(block_slot, slots_per_epoch);
    match present_slot {
        None => seq![],
        Some(now) => if block_epoch + VALIDATOR_MONITOR_HISTORIC_EPOCHS < epoch_of(now, slots_per_epoch) {
            seq![]
        } else {
            Seq::new(
                count,
                |i: int| if block_epoch >= count - i {
                    (block_epoch - (count - i)) as u64
                } else {
                    0u64
                },
            )
        },
    }
}

/// Chooses which epoch summaries of the catch-up go to the validator monitor.
pub fn validator_monitor_epochs(block_slot: u64, present_slot: Option<u64>, count: usize, slots_per_epoch: u64) -> (r: Vec<u64>)
    requires
        slots_per_epoch > 0,
    ensures
        r@ == monitor_epochs_spec(block_slot, present_slot, count as nat, slots_per_epoch),
{
    let block_epoch = slot_epoch(block_slot, slots_per_epoch);
    let mut out: Vec<u64> = Vec::new();
    let now = match present_slot {
        None => {
            assert(out@ =~= monitor_epochs_spec(block_slot, present_slot, count as nat, slots_per_epoch));
            return out;
        },
        Some(now) => now,
    };
    let now_epoch = slot_epoch(now, slots_per_epoch);
    if block_epoch < now_epoch && now_epoch - block_epoch > VALIDATOR_MONITOR_HISTORIC_EPOCHS {
        assert(out@ =~= monitor_epochs_spec(block_slot, present_slot, count as nat, slots_per_epoch));
        return out;
    }
    let ghost target = monitor_epochs_spec(block_slot, present_slot, count as nat, slots_per_epoch);
    let mut i: usize = 0;
    while i < count
        invariant
            i <= count,
            target.len() == count,
            out@ == target.subrange(0, i as int),
            block_epoch == epoch_of(block_slot, slots_per_epoch),
            target == Seq::new(
                count as nat,
                |j: int| if block_epoch >= count - j {
                    (block_epoch - (count - j)) as u64
                } else {
                    0u64
                },
            ),
        decreases count - i,
    {
        let back = (count - i) as u64;
        let e = if block_epoch >= back {
            block_epoch - back
        } else {
            0
        };
        out.push(e);
        i = i + 1;
        assert(out@ =~= target.subrange(0, i as int));
    }
    assert(out@ =~= target);
    out
}

/// A state reached while advancing the pre-state slot by slot to the block.
#[derive(Clone, Copy, Debug)]
pub struct IntermediateState {
    /// Its tree-hash root.
    pub root: Hash256,
    /// Whether the store already holds it, for whatever reason.
    pub already_stored: bool,
}

/// Why per-block processing failed.
#[derive(Clone, Debug)]
pub enum BlockProcessingFailure {
    /// The block breaks the state transition rules.
    InvalidBlock(BlockProcessingError),
    /// The state could not be read or updated.
    StateError { reason: String },
}

/// What fork choice made of one attestation carried by the block.
#[derive(Clone, Debug)]
pub enum AttestationOutcome {
    Applied,
    /// Invalid for fork choice, for instance too old; ignored.
    Invalid,
    /// Fork choice failed internally.
    Failed { reason: String },
}

/// The results of the outside work of the execution-pending stage.
#[derive(Debug)]
pub struct ExecutionData {
    /// Whether the task executor accepted the payload verification task.
    pub executor_running: bool,
    /// The states reached on the way from the pre-state to the block's slot,
    /// one per slot from the pre-state's.
    pub intermediate_states: Vec<IntermediateState>,
    /// How many epoch summaries the catch-up produced.
    pub epoch_summaries: usize,
    /// The execution layer's answers for the payload, awaited at commit.
    pub payload: PayloadAnswers,
    /// The root of the post-state, or why per-block processing failed.
    pub block_processing: Result<Hash256, BlockProcessingFailure>,
    /// Fork choice's answer to each attestation of the block.
    pub attestation_outcomes: Vec<AttestationOutcome>,
}

/// A write staged in the store while catching the state up to the block.
#[derive(Clone, Copy, Debug)]
pub enum StoreOp {
    /// A full state, at an epoch boundary.
    PutState { root: Hash256, slot: u64 },
    /// A state summary, off the boundary.
    PutStateSummary { root: Hash256, slot: u64 },
    /// Marks a state as temporary until the block is imported.
    PutStateTemporaryFlag(Hash256),
}

/// A block whose state transition is done and whose execution payload is
/// being verified; ready to be imported once that verification succeeds.
#[derive(Debug)]
pub struct ExecutionPendingBlock {
    pub block: SignedBeaconBlock,
    pub block_root: Hash256,
    pub parent_slot: u64,
    /// The root of the state after the block.
    pub state_root: Hash256,
    /// The roots of the intermediate states written during catch-up; their
    /// temporary flags are cleared when the block is imported.
    pub confirmed_state_roots: Vec<Hash256>,
    /// The writes made during catch-up.
    pub state_writes: Vec<StoreOp>,
    pub consensus_context: ConsensusContext,
    pub is_valid_merge_transition_block: bool,
    /// The epochs of the catch-up's summaries that the validator monitor is
    /// told of.
    pub validator_monitor_epochs: Vec<u64>,
    /// What the payload verification decided; the block is imported only if
    /// this is `Ok`.
    pub payload_verification: Result<PayloadVerificationOutcome, BlockError>,
}

/// The writes for the `i`th state reached during catch-up, if it has to be
/// stored: not the parent's own post-state, and not already in the store.
pub open spec fn step_ops(snapshot: PreProcessingSnapshot, states: Seq<IntermediateState>, i: int, slots_per_epoch: u64) -> Seq<StoreOp> {
    let slot = snapshot.pre_state_slot + i;
    let st = states[i];
    if slot == snapshot.parent_slot || st.already_stored {
        seq![]
    } else if slot % slots_per_epoch as int == 0 {
        seq![StoreOp::PutState { root: st.root, slot: slot as u64 }, StoreOp::PutStateTemporaryFlag(st.root)]
    } else {
        seq![StoreOp::PutStateSummary { root: st.root, slot: slot as u64 }, StoreOp::PutStateTemporaryFlag(st.root)]
    }
}

/// The roots confirmed by the `i`th step of catch-up.
pub open spec fn step_roots(snapshot: PreProcessingSnapshot, states: Seq<IntermediateState>, i: int) -> Seq<Hash256> {
    if snapshot.pre_state_slot + i == snapshot.parent_slot {
        seq![]
    } else {
        seq![states[i].root]
    }
}

/// The writes of the first `n` steps of catch-up.
pub open spec fn catchup_ops(snapshot: PreProcessingSnapshot, states: Seq<IntermediateState>, n: nat, slots_per_epoch: u64) -> Seq<StoreOp>
    decreases n,
{
    if n == 0 {
        seq![]
    } else {
        catchup_ops(snapshot, states, (n - 1) as nat, slots_per_epoch) + step_ops(snapshot, states, n - 1, slots_per_epoch)
    }
}

/// The roots confirmed by the first `n` steps of catch-up.
pub open spec fn catchup_roots(snapshot: PreProcessingSnapshot, states: Seq<IntermediateState>, n: nat) -> Seq<Hash256>
    decreases n,
{
    if n == 0 {
        seq![]
    } else {
        catchup_roots(snapshot, states, (n - 1) as nat) + step_roots(snapshot, states, n - 1)
    }
}

/// The reason of the first attestation that fork choice failed on, if any.
pub open spec fn first_attestation_failure(outcomes: Seq<AttestationOutcome>) -> Option<String>
    decreases outcomes.len(),
{
    if outcomes.len() == 0 {
        None
    } else {
        match outcomes[0] {
            AttestationOutcome::Failed { reason } => Some(reason),
            _ => first_attestation_failure(outcomes.drop_first()),
        }
    }
}

/// The first check of the execution-pending stage that the block fails, in
/// order; otherwise the root of the post-state.
pub open spec fn execution_pending_spec(
    chain: ChainView,
    observed: ObservedBlockProducers,
    block: SignedBeaconBlock,
    block_root: Hash256,
    snapshot: PreProcessingSnapshot,
    ctx: ConsensusContext,
    data: ExecutionData,
) -> Result<Hash256, BlockError> {
    let h = block.header;
    let slot = h.slot;
    let parent = chain.fork_choice.get_spec(h.parent_root@);
    if observed.check_spec(h) is Err {
        Err(BlockError::BeaconChainError(BeaconChainError::ObserveProposal(observed.check_spec(h)->Err_0)))
    } else if parent is None {
        Err(BlockError::ParentUnknown(block))
    } else if parent->0.execution_invalid {
        Err(BlockError::ParentExecutionPayloadInvalid { parent_root: h.parent_root })
    } else if relevancy_error(chain, slot, block_root@) is Some {
        Err(relevancy_error(chain, slot, block_root@)->0)
    } else if ctx.proposer_index is Some && ctx.proposer_index->0 != h.proposer_index {
        Err(BlockError::IncorrectBlockProposer { block: h.proposer_index, local_shuffling: ctx.proposer_index->0 })
    } else if !data.executor_running {
        Err(BlockError::BeaconChainError(BeaconChainError::RuntimeShutdown))
    } else if slot <= snapshot.parent_slot {
        Err(BlockError::BlockIsNotLaterThanParent { block_slot: slot, parent_slot: snapshot.parent_slot })
    } else if snapshot.pre_state_slot < snapshot.parent_slot || snapshot.pre_state_slot > slot {
        Err(
            BlockError::BeaconChainError(
                BeaconChainError::BadPreState {
                    parent_root: snapshot.beacon_block_root,
                    parent_slot: snapshot.parent_slot,
                    block_root,
                    block_slot: slot,
                    state_slot: snapshot.pre_state_slot,
                },
            ),
        )
    } else if data.intermediate_states.len() < slot - snapshot.pre_state_slot {
        Err(
            BlockError::BeaconChainError(
                BeaconChainError::MissingIntermediateState(
                    (snapshot.pre_state_slot + data.intermediate_states.len()) as u64,
                ),
            ),
        )
    } else {
        match data.block_processing {
            Err(BlockProcessingFailure::InvalidBlock(e)) => Err(BlockError::PerBlockProcessingError(e)),
            Err(BlockProcessingFailure::StateError { reason }) => Err(
                BlockError::BeaconChainError(BeaconChainError::BeaconState { reason }),
            ),
            Ok(local) => if local@ != h.state_root@ {
                Err(BlockError::StateRootMismatch { block: h.state_root, local })
            } else if first_attestation_failure(data.attestation_outcomes@) is Some {
                Err(
                    BlockError::BeaconChainError(
                        BeaconChainError::ForkChoice {
                            reason: first_attestation_failure(data.attestation_outcomes@)->0,
                        },
                    ),
                )
            } else {
                Ok(local)
            },
        }
    }
}

/// Scans fork choice's answers for the first internal failure; invalid
/// attestations are ignored.
fn first_failure(outcomes: Vec<AttestationOutcome>) -> (r: Option<String>)
    ensures
        r == first_attestation_failure(outcomes@),
{
    let mut rest = outcomes;
    while rest.len() > 0
        invariant
            first_attestation_failure(outcomes@) == first_attestation_failure(rest@),
        decreases rest@.len(),
    {
        let ghost before = rest@;
        let o = rest.remove(0);
        assert(before[0] == o);
        assert(before.drop_first() =~= rest@);
        match o {
            AttestationOutcome::Failed { reason } => return Some(reason),
            _ => {},
        }
    }
    None
}

/// Stages the store writes for the states reached while catching the
/// pre-state up to the block's slot.
fn catch_up(
    parent: &PreProcessingSnapshot,
    states: &Vec<IntermediateState>,
    distance: usize,
    slots_per_epoch: u64,
) -> (r: (Vec<Hash256>, Vec<StoreOp>))
    requires
        slots_per_epoch > 0,
        distance <= states@.len(),
        parent.pre_state_slot + distance <= u64::MAX,
    ensures
        r.0@ == catchup_roots(*parent, states@, distance as nat),
        r.1@ == catchup_ops(*parent, states@, distance as nat, slots_per_epoch),
{
    let mut roots: Vec<Hash256> = Vec::new();
    let mut ops: Vec<StoreOp> = Vec::new();
    let mut i: usize = 0;
    while i < distance
        invariant
            i <= distance,
            slots_per_epoch > 0,
            distance <= states@.len(),
            parent.pre_state_slot + distance <= u64::MAX,
            roots@ == catchup_roots(*parent, states@, i as nat),
            ops@ == catchup_ops(*parent, states@, i as nat, slots_per_epoch),
        decreases distance - i,
    {
        let slot = parent.pre_state_slot + i as u64;
        let st = states[i];
        if slot != parent.parent_slot {
            roots.push(st.root);
            if !st.already_stored {
                if slot % slots_per_epoch == 0 {
                    ops.push(StoreOp::PutState { root: st.root, slot });
                } else {
                    ops.push(StoreOp::PutStateSummary { root: st.root, slot });
                }
                ops.push(StoreOp::PutStateTemporaryFlag(st.root));
            }
        }
        proof {
            assert(step_roots(*parent, states@, i as int) =~= (if slot == parent.parent_slot {
                seq![]
            } else {
                seq![st.root]
            }));
        }
        assert(roots@ =~= catchup_roots(*parent, states@, i as nat) + step_roots(*parent, states@, i as int)) by {
            assert(catchup_roots(*parent, states@, (i + 1) as nat) == catchup_roots(*parent, states@, i as nat)
                + step_roots(*parent, states@, i as int));
        }
        assert(ops@ =~= catchup_ops(*parent, states@, (i + 1) as nat, slots_per_epoch));
        assert(roots@ =~= catchup_roots(*parent, states@, (i + 1) as nat));
        i = i + 1;
    }
    (roots, ops)
}

/// `v` is the execution-pending form of `block` on `parent`, with `local`
/// as the root of its post-state.
pub open spec fn pending_output(
    chain: ChainView,
    block: SignedBeaconBlock,
    block_root: Hash256,
    parent: PreProcessingSnapshot,
    data: ExecutionData,
    local: Hash256,
    v: ExecutionPendingBlock,
) -> bool {
    let distance = (block.header.slot - parent.pre_state_slot) as nat;
    &&& v.block == block
    &&& v.block_root == block_root
    &&& v.parent_slot == parent.parent_slot
    &&& v.state_root == local
    &&& v.consensus_context == (ConsensusContext {
        slot: block.header.slot,
        current_block_root: Some(block_root),
        proposer_index: Some(block.header.proposer_index),
    })
    &&& v.is_valid_merge_transition_block == block.is_merge_transition
    &&& v.confirmed_state_roots@ == catchup_roots(parent, data.intermediate_states@, distance)
    &&& v.state_writes@ == catchup_ops(parent, data.intermediate_states@, distance, chain.spec.slots_per_epoch)
    &&& v.validator_monitor_epochs@ == monitor_epochs_spec(
        block.header.slot,
        chain.clock.now_spec(),
        data.epoch_summaries as nat,
        chain.spec.slots_per_epoch,
    )
    &&& v.payload_verification == payload_outcome_spec(
        block.is_merge_transition,
        block.header.slot,
        chain.spec.safe_slots_to_import_optimistically,
        data.payload,
    )
}

impl ExecutionPendingBlock {
    /// Runs the state transition of a block whose signatures are already
    /// verified: records the proposal, admits the parent, repeats the cheap
    /// relevancy checks, checks the proposer cached in the context (or
    /// caches it), catches the pre-state up to the block's slot while
    /// staging the intermediate states, checks the post-state root and
    /// applies the block's attestations to fork choice.
    pub fn from_signature_verified_components(
        block: SignedBeaconBlock,
        block_root: Hash256,
        parent: PreProcessingSnapshot,
        consensus_context: ConsensusContext,
        chain: &ChainView,
        observed: &mut ObservedBlockProducers,
        data: ExecutionData,
    ) -> (r: Result<Self, BlockError>)
        requires
            chain.wf(),
        ensures
            match execution_pending_spec(*chain, *old(observed), block, block_root, parent, consensus_context, data) {
                Err(e) => r == Err::<Self, BlockError>(e),
                Ok(local) => r matches Ok(v) && pending_output(*chain, block, block_root, parent, data, local, v),
            },
            old(observed).check_spec(block.header) is Ok ==> records_proposal(
                *old(observed),
                *final(observed),
                block.header,
                block_root@,
            ),
            old(observed).check_spec(block.header) is Err ==> *final(observed) == *old(observed),
    {
        let ghost data0 = data;
        match observed.observe_proposal(&block_root, &block.header) {
            Err(e) => return Err(BlockError::BeaconChainError(BeaconChainError::ObserveProposal(e))),
            Ok(_) => {},
        }
        let parent_root = block.parent_root();
        match chain.fork_choice.get_block(&parent_root) {
            Some(p) => {
                if p.execution_invalid {
                    return Err(BlockError::ParentExecutionPayloadInvalid { parent_root });
                }
            },
            None => return Err(BlockError::ParentUnknown(block)),
        }
        check_block_relevancy(&block, block_root, chain)?;
        if let Some(p) = consensus_context.proposer_index {
            if p != block.header.proposer_index {
                return Err(
                    BlockError::IncorrectBlockProposer { block: block.header.proposer_index, local_shuffling: p },
                );
            }
        }
        let ExecutionData {
            executor_running,
            intermediate_states,
            epoch_summaries,
            payload,
            block_processing,
            attestation_outcomes,
        } = data;
        if !executor_running {
            return Err(BlockError::BeaconChainError(BeaconChainError::RuntimeShutdown));
        }
        let slot = block.slot();
        if slot <= parent.parent_slot {
            return Err(BlockError::BlockIsNotLaterThanParent { block_slot: slot, parent_slot: parent.parent_slot });
        }
        if parent.pre_state_slot < parent.parent_slot || parent.pre_state_slot > slot {
            return Err(
                BlockError::BeaconChainError(
                    BeaconChainError::BadPreState {
                        parent_root: parent.beacon_block_root,
                        parent_slot: parent.parent_slot,
                        block_root,
                        block_slot: slot,
                        state_slot: parent.pre_state_slot,
                    },
                ),
            );
        }
        let distance = slot - parent.pre_state_slot;
        if (intermediate_states.len() as u64) < distance {
            return Err(
                BlockError::BeaconChainError(
                    BeaconChainError::MissingIntermediateState(
                        parent.pre_state_slot + intermediate_states.len() as u64,
                    ),
                ),
            );
        }
        let (confirmed_state_roots, state_writes) = catch_up(
            &parent,
            &intermediate_states,
            distance as usize,
            chain.spec.slots_per_epoch,
        );
        let validator_monitor_epochs = validator_monitor_epochs(
            slot,
            chain.clock.now(),
            epoch_summaries,
            chain.spec.slots_per_epoch,
        );
        let local = match block_processing {
            Err(BlockProcessingFailure::InvalidBlock(e)) => return Err(BlockError::PerBlockProcessingError(e)),
            Err(BlockProcessingFailure::StateError { reason }) => return Err(
                BlockError::BeaconChainError(BeaconChainError::BeaconState { reason }),
            ),
            Ok(root) => root,
        };
        if !local.same(&block.header.state_root) {
            return Err(BlockError::StateRootMismatch { block: block.header.state_root, local });
        }
        if let Some(reason) = first_failure(attestation_outcomes) {
            return Err(BlockError::BeaconChainError(BeaconChainError::ForkChoice { reason }));
        }
        let is_valid_merge_transition_block = block.is_merge_transition;
        let payload_verification = payload_verification_outcome(
            is_valid_merge_transition_block,
            slot,
            chain.spec.safe_slots_to_import_optimistically,
            payload,
        );
        let consensus_context = ConsensusContext {
            slot,
            current_block_root: Some(block_root),
            proposer_index: Some(block.header.proposer_index),
        };
        Ok(
            ExecutionPendingBlock {
                block,
                block_root,
                parent_slot: parent.parent_slot,
                state_root: local,
                confirmed_state_roots,
                state_writes,
                consensus_context,
                is_valid_merge_transition_block,
                validator_monitor_epochs,
                payload_verification,
            },
        )
    }
}

/// A block is only admitted past the state transition with a slot above its
/// parent's and below the slot limit.
pub proof fn lemma_admitted_block_slots(
    chain: ChainView,
    observed: ObservedBlockProducers,
    block: SignedBeaconBlock,
    block_root: Hash256,
    parent: PreProcessingSnapshot,
    ctx: ConsensusContext,
    data: ExecutionData,
)
    requires
        execution_pending_spec(chain, observed, block, block_root, parent, ctx, data) is Ok,
    ensures
        block.header.slot > parent.parent_slot,
        block.header.slot < MAXIMUM_BLOCK_SLOT_NUMBER,
        block.header.slot > 0,
        chain.fork_choice.contains_spec(block.header.parent_root@),
{
}

} // verus!
