use vstd::prelude::*;
use crate::block::{ForkName, SignedBeaconBlock, SignedBeaconBlockHeader};
use crate::hash::Hash256;

verus! {

/// What the execution engine answered for a payload.
#[derive(Clone, Debug)]
pub enum PayloadStatus {
    Valid,
    Invalid { latest_valid_hash: Option<Hash256> },
    Syncing,
    Accepted,
    InvalidBlockHash,
}

/// Why a block's execution payload could not be validated.
#[derive(Clone, Debug)]
pub enum ExecutionPayloadError {
    /// No execution engine is connected: not the peer's fault.
    NoExecutionConnection,
    /// The request to the execution engine failed: not the peer's fault.
    RequestFailed { reason: String },
    /// The execution engine rejected the payload. An honest optimistic node
    /// may have forwarded it.
    RejectedByExecutionEngine { status: PayloadStatus },
    /// The payload's timestamp does not match the block's slot: a gossip
    /// condition no honest peer breaks.
    InvalidPayloadTimestamp { expected: u64, found: u64 },
    /// The payload's parent cannot trigger the merge.
    InvalidTerminalPoWBlock { parent_hash: Hash256 },
    /// The terminal block hash is set but its activation epoch is not reached.
    InvalidActivationEpoch { activation_epoch: u64, epoch: u64 },
    /// The terminal block hash is set and differs from the payload's parent.
    InvalidTerminalBlockHash { terminal_block_hash: Hash256, payload_parent_hash: Hash256 },
    /// The execution engine is syncing and the block may not be imported
    /// optimistically.
    UnverifiedNonOptimisticCandidate,
}

impl ExecutionPayloadError {
    pub open spec fn penalizes(&self) -> bool {
        self is InvalidPayloadTimestamp
    }

    /// Whether the peer that sent the block is at fault.
    pub fn penalize_peer(&self) -> (r: bool)
        ensures
            r == self.penalizes(),
    {
        match self {
            ExecutionPayloadError::NoExecutionConnection => false,
            ExecutionPayloadError::RequestFailed { .. } => false,
            ExecutionPayloadError::RejectedByExecutionEngine { .. } => false,
            ExecutionPayloadError::InvalidPayloadTimestamp { .. } => true,
            ExecutionPayloadError::InvalidTerminalPoWBlock { .. } => false,
            ExecutionPayloadError::InvalidActivationEpoch { .. } => false,
            ExecutionPayloadError::InvalidTerminalBlockHash { .. } => false,
            ExecutionPayloadError::UnverifiedNonOptimisticCandidate => false,
        }
    }
}

/// Why the observed-proposers cache could not answer.
#[derive(Clone, Copy, Debug, PartialEq, Eq, Structural)]
pub enum ObserveError {
    /// The block is at or before the finalized slot.
    FinalizedBlock { slot: u64, finalized_slot: u64 },
    /// The proposer index is beyond the cache's bound.
    ValidatorIndexTooHigh { index: u64 },
}

/// An internal failure: never the peer's fault.
#[derive(Clone, Debug)]
pub enum BeaconChainError {
    UnableToReadSlot,
    ValidatorPubkeyCacheLockTimeout,
    NoProposerForSlot(u64),
    MissingBeaconBlock(Hash256),
    MissingParentState(Hash256),
    BadPreState {
        parent_root: Hash256,
        parent_slot: u64,
        block_root: Hash256,
        block_slot: u64,
        state_slot: u64,
    },
    RuntimeShutdown,
    ObserveProposal(ObserveError),
    ValidatorUnknown(u64),
    ArithOverflow,
    MissingIntermediateState(u64),
    BeaconState { reason: String },
    StateAdvance { reason: String },
    ForkChoice { reason: String },
    Store { reason: String },
}

/// Why the state transition rejected a block.
#[derive(Clone, Debug)]
pub struct BlockProcessingError {
    pub reason: String,
}

/// Why a block was not verified.
#[derive(Clone, Debug)]
pub enum BlockError {
    /// The parent is unknown; the block is handed back so that its parent
    /// can be requested.
    ParentUnknown(SignedBeaconBlock),
    FutureSlot { present_slot: u64, block_slot: u64 },
    StateRootMismatch { block: Hash256, local: Hash256 },
    GenesisBlock,
    WouldRevertFinalizedSlot { block_slot: u64, finalized_slot: u64 },
    NotFinalizedDescendant { block_parent_root: Hash256 },
    BlockIsAlreadyKnown,
    BlockSlotLimitReached,
    IncorrectBlockProposer { block: u64, local_shuffling: u64 },
    ProposalSignatureInvalid,
    UnknownValidator(u64),
    InvalidSignature,
    BlockIsNotLaterThanParent { block_slot: u64, parent_slot: u64 },
    NonLinearParentRoots,
    NonLinearSlots,
    PerBlockProcessingError(BlockProcessingError),
    BeaconChainError(BeaconChainError),
    WeakSubjectivityConflict,
    InconsistentFork { fork_at_slot: ForkName, object_fork: ForkName },
    ExecutionPayloadError(ExecutionPayloadError),
    ParentExecutionPayloadInvalid { parent_root: Hash256 },
    Slashable,
}

/// A failed block, with what the slasher may still learn from it.
#[derive(Clone, Debug)]
pub enum BlockSlashInfo<TErr> {
    /// The block is invalid and its proposer signature was not checked.
    SignatureNotChecked(SignedBeaconBlockHeader, TErr),
    /// The proposer signature is invalid: never slashable.
    SignatureInvalid(TErr),
    /// The proposer signature is valid but the block is invalid otherwise.
    SignatureValid(SignedBeaconBlockHeader, TErr),
}

impl<TErr> BlockSlashInfo<TErr> {
    pub open spec fn error_spec(self) -> TErr {
        match self {
            BlockSlashInfo::SignatureNotChecked(_, e) => e,
            BlockSlashInfo::SignatureInvalid(e) => e,
            BlockSlashInfo::SignatureValid(_, e) => e,
        }
    }

    /// The error the block failed with.
    pub fn into_error(self) -> (r: TErr)
        ensures
            r == self.error_spec(),
    {
        match self {
            BlockSlashInfo::SignatureNotChecked(_, e) => e,
            BlockSlashInfo::SignatureInvalid(e) => e,
            BlockSlashInfo::SignatureValid(_, e) => e,
        }
    }
}

impl BlockSlashInfo<BlockError> {
    pub open spec fn from_early_error_spec(header: SignedBeaconBlockHeader, e: BlockError) -> Self {
        if e is ProposalSignatureInvalid {
            BlockSlashInfo::SignatureInvalid(e)
        } else {
            BlockSlashInfo::SignatureNotChecked(header, e)
        }
    }

    /// Classifies an error raised before the proposer signature was known to
    /// be valid.
    pub fn from_early_error(header: SignedBeaconBlockHeader, e: BlockError) -> (r: Self)
        ensures
            r == Self::from_early_error_spec(header, e),
    {
        match e {
            BlockError::ProposalSignatureInvalid => BlockSlashInfo::SignatureInvalid(e),
            _ => BlockSlashInfo::SignatureNotChecked(header, e),
        }
    }
}

} // verus!
