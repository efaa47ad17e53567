use vstd::prelude::*;
use crate::errors::{BlockError, ExecutionPayloadError, PayloadStatus};

verus! {

/// How far a payload was verified.
#[derive(Clone, Copy, Debug, PartialEq, Eq, Structural)]
pub enum PayloadVerificationStatus {
    /// The execution engine found it valid.
    Verified,
    /// The execution engine could not tell yet.
    Optimistic,
    /// The block has no execution payload.
    Irrelevant,
}

/// What the payload verification task hands back.
#[derive(Clone, Copy, Debug, PartialEq, Eq, Structural)]
pub struct PayloadVerificationOutcome {
    pub payload_verification_status: PayloadVerificationStatus,
    pub is_valid_merge_transition_block: bool,
}

/// What the execution layer answered for a block's payload.
#[derive(Debug)]
pub struct PayloadAnswers {
    /// For a merge transition block: whether its terminal block checks out.
    pub merge_check: Result<(), ExecutionPayloadError>,
    /// The answer to the new payload, or why it could not be had.
    pub new_payload: Result<PayloadStatus, ExecutionPayloadError>,
    /// The slot when the answer came.
    pub current_slot: u64,
    /// Whether the justified block already has an execution payload.
    pub justified_has_payload: bool,
}

pub open spec fn status_spec(status: PayloadStatus) -> Result<PayloadVerificationStatus, ExecutionPayloadError> {
    match status {
        PayloadStatus::Valid => Ok(PayloadVerificationStatus::Verified),
        PayloadStatus::Syncing => Ok(PayloadVerificationStatus::Optimistic),
        PayloadStatus::Accepted => Ok(PayloadVerificationStatus::Optimistic),
        _ => Err(ExecutionPayloadError::RejectedByExecutionEngine { status }),
    }
}

/// Translates the execution engine's answer to a new payload.
pub fn payload_status_outcome(status: PayloadStatus) -> (r: Result<PayloadVerificationStatus, ExecutionPayloadError>)
    ensures
        r == status_spec(status),
{
    match status {
        PayloadStatus::Valid => Ok(PayloadVerificationStatus::Verified),
        PayloadStatus::Syncing => Ok(PayloadVerificationStatus::Optimistic),
        PayloadStatus::Accepted => Ok(PayloadVerificationStatus::Optimistic),
        _ => Err(ExecutionPayloadError::RejectedByExecutionEngine { status }),
    }
}

pub open spec fn optimistic_candidate_spec(
    block_slot: u64,
    current_slot: u64,
    safe_slots: u64,
    justified_has_payload: bool,
) -> bool {
    justified_has_payload || block_slot + safe_slots <= current_slot
}

/// Whether a block whose payload the execution engine could not judge may
/// be imported optimistically: the justified block already has an execution
/// payload, or the block is at least `safe_slots` behind the clock.
pub fn is_optimistic_candidate_block(
    block_slot: u64,
    current_slot: u64,
    safe_slots: u64,
    justified_has_payload: bool,
) -> (r: bool)
    ensures
        r == optimistic_candidate_spec(block_slot, current_slot, safe_slots, justified_has_payload),
{
    if justified_has_payload {
        return true;
    }
    match block_slot.checked_add(safe_slots) {
        Some(s) => s <= current_slot,
        None => false,
    }
}

/// What the payload verification task decides, from the execution layer's
/// answers: the merge block check (for a merge transition block), the answer
/// to the new payload, and, when that answer is not final, whether the block
/// at `block_slot` is an optimistic candidate at the current slot.
pub open spec fn payload_outcome_spec(
    is_valid_merge_transition_block: bool,
    block_slot: u64,
    safe_slots: u64,
    answers: PayloadAnswers,
) -> Result<PayloadVerificationOutcome, BlockError> {
    if is_valid_merge_transition_block && answers.merge_check is Err {
        Err(BlockError::ExecutionPayloadError(answers.merge_check->Err_0))
    } else {
        match answers.new_payload {
            Err(e) => Err(BlockError::ExecutionPayloadError(e)),
            Ok(status) => match status_spec(status) {
                Err(e) => Err(BlockError::ExecutionPayloadError(e)),
                Ok(s) => if s == PayloadVerificationStatus::Optimistic && !optimistic_candidate_spec(
                    block_slot,
                    answers.current_slot,
                    safe_slots,
                    answers.justified_has_payload,
                ) {
                    Err(BlockError::ExecutionPayloadError(ExecutionPayloadError::UnverifiedNonOptimisticCandidate))
                } else {
                    Ok(PayloadVerificationOutcome { payload_verification_status: s, is_valid_merge_transition_block })
                },
            },
        }
    }
}

pub fn payload_verification_outcome(
    is_valid_merge_transition_block: bool,
    block_slot: u64,
    safe_slots: u64,
    answers: PayloadAnswers,
) -> (r: Result<PayloadVerificationOutcome, BlockError>)
    ensures
        r == payload_outcome_spec(is_valid_merge_transition_block, block_slot, safe_slots, answers),
{
    let PayloadAnswers { merge_check, new_payload, current_slot, justified_has_payload } = answers;
    if is_valid_merge_transition_block {
        if let Err(e) = merge_check {
            return Err(BlockError::ExecutionPayloadError(e));
        }
    }
    let status = match new_payload {
        Err(e) => return Err(BlockError::ExecutionPayloadError(e)),
        Ok(status) => status,
    };
    let s = match payload_status_outcome(status) {
        Err(e) => return Err(BlockError::ExecutionPayloadError(e)),
        Ok(s) => s,
    };
    if s == PayloadVerificationStatus::Optimistic && !is_optimistic_candidate_block(
        block_slot,
        current_slot,
        safe_slots,
        justified_has_payload,
    ) {
        return Err(BlockError::ExecutionPayloadError(ExecutionPayloadError::UnverifiedNonOptimisticCandidate));
    }
    Ok(PayloadVerificationOutcome { payload_verification_status: s, is_valid_merge_transition_block })
}

} // verus!
