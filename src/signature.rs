use vstd::prelude::*;
use crate::block::{SignatureSet, SignedBeaconBlock, SignedBeaconBlockHeader};
use crate::errors::{BeaconChainError, BlockError};
use crate::hash::Hash256;

verus! {

/// Facts about one block gathered by one stage and reused by the later ones.
#[derive(Clone, Copy, Debug)]
pub struct ConsensusContext {
    pub slot: u64,
    pub current_block_root: Option<Hash256>,
    pub proposer_index: Option<u64>,
}

impl ConsensusContext {
    pub fn new(slot: u64) -> (r: Self)
        ensures
            r.slot == slot,
            r.current_block_root.is_none(),
            r.proposer_index.is_none(),
    {
        ConsensusContext { slot, current_block_root: None, proposer_index: None }
    }

    pub fn set_current_block_root(self, root: Hash256) -> (r: Self)
        ensures
            r == (ConsensusContext { current_block_root: Some(root), ..self }),
    {
        ConsensusContext { current_block_root: Some(root), ..self }
    }

    pub fn set_proposer_index(self, index: u64) -> (r: Self)
        ensures
            r == (ConsensusContext { proposer_index: Some(index), ..self }),
    {
        ConsensusContext { proposer_index: Some(index), ..self }
    }
}

/// The validity of each signature set, in order.
pub open spec fn validities(sets: Seq<SignatureSet>) -> Seq<bool> {
    sets.map_values(|s: SignatureSet| s.valid)
}

pub open spec fn all_valid(outcomes: Seq<bool>) -> bool {
    forall|i: int| 0 <= i < outcomes.len() ==> #[trigger] outcomes[i]
}

/// The first signer without a known public key, if any.
pub open spec fn first_unknown_signer(sets: Seq<SignatureSet>, validator_count: u64) -> Option<u64>
    decreases sets.len(),
{
    if sets.len() == 0 {
        None
    } else if sets[0].signer >= validator_count {
        Some(sets[0].signer)
    } else {
        first_unknown_signer(sets.drop_first(), validator_count)
    }
}

/// Whether every signature of a block verifies.
pub open spec fn block_signatures_valid(block: SignedBeaconBlock) -> bool {
    block.proposal_signature_valid && all_valid(validities(block.signature_sets@))
}

/// Why a block's signatures cannot be gathered: its proposer is not the
/// expected one, or a signer has no known public key.
pub open spec fn gather_error(block: SignedBeaconBlock, expected_proposer: u64, validator_count: u64) -> Option<BlockError> {
    let p = block.header.proposer_index;
    if p != expected_proposer {
        Some(BlockError::IncorrectBlockProposer { block: p, local_shuffling: expected_proposer })
    } else if p >= validator_count {
        Some(BlockError::BeaconChainError(BeaconChainError::ValidatorUnknown(p)))
    } else if first_unknown_signer(block.signature_sets@, validator_count) is Some {
        Some(
            BlockError::BeaconChainError(
                BeaconChainError::ValidatorUnknown(first_unknown_signer(block.signature_sets@, validator_count)->0),
            ),
        )
    } else {
        None
    }
}

/// Signatures gathered from one or more blocks, checked together in a
/// single aggregate verification.
#[derive(Clone, Debug)]
pub struct SignatureBatch {
    /// Validators with an index below this have a known public key.
    pub validator_count: u64,
    /// The outcome of each gathered signature's pairing check.
    pub outcomes: Vec<bool>,
}

impl SignatureBatch {
    /// An empty batch.
    pub fn new(validator_count: u64) -> (r: Self)
        ensures
            r.validator_count == validator_count,
            r.outcomes@.len() == 0,
    {
        SignatureBatch { validator_count, outcomes: Vec::new() }
    }

    /// Adds every signature of the block but the proposal's. Fails on a
    /// signer without a known public key.
    pub fn include_all_signatures_except_proposal(&mut self, block: &SignedBeaconBlock) -> (r: Result<(), BlockError>)
        ensures
            final(self).validator_count == old(self).validator_count,
            match first_unknown_signer(block.signature_sets@, old(self).validator_count) {
                Some(v) => r == Err::<(), BlockError>(
                    BlockError::BeaconChainError(BeaconChainError::ValidatorUnknown(v)),
                ),
                None => r is Ok && final(self).outcomes@ == old(self).outcomes@ + validities(
                    block.signature_sets@,
                ),
            },
    {
        let ghost start = self.outcomes@;
        let mut i: usize = 0;
        assert(block.signature_sets@.subrange(0, block.signature_sets@.len() as int) =~= block.signature_sets@);
        while i < block.signature_sets.len()
            invariant
                i <= block.signature_sets.len(),
                self.validator_count == old(self).validator_count,
                start == old(self).outcomes@,
                self.outcomes@ == start + validities(block.signature_sets@.subrange(0, i as int)),
                first_unknown_signer(block.signature_sets@, self.validator_count) == first_unknown_signer(
                    block.signature_sets@.subrange(i as int, block.signature_sets@.len() as int),
                    self.validator_count,
                ),
            decreases block.signature_sets.len() - i,
        {
            let set = block.signature_sets[i];
            let ghost rest = block.signature_sets@.subrange(i as int, block.signature_sets@.len() as int);
            assert(rest[0] == set);
            assert(rest.drop_first() =~= block.signature_sets@.subrange(i + 1, block.signature_sets@.len() as int));
            if set.signer >= self.validator_count {
                return Err(BlockError::BeaconChainError(BeaconChainError::ValidatorUnknown(set.signer)));
            }
            self.outcomes.push(set.valid);
            proof {
                let sub = block.signature_sets@.subrange(0, i + 1);
                assert(sub =~= block.signature_sets@.subrange(0, i as int).push(set));
                assert(validities(sub) =~= validities(block.signature_sets@.subrange(0, i as int)).push(set.valid));
            }
            i = i + 1;
        }
        assert(block.signature_sets@.subrange(0, i as int) =~= block.signature_sets@);
        assert(block.signature_sets@.subrange(i as int, block.signature_sets@.len() as int).len() == 0);
        Ok(())
    }

    /// Adds every signature of the block, the proposal's first, and records
    /// the proposer in the context. Fails where the proposer is not the one
    /// the shuffling expects, or a signer has no known public key.
    pub fn include_all_signatures(
        &mut self,
        block: &SignedBeaconBlock,
        expected_proposer: u64,
        ctx: &mut ConsensusContext,
    ) -> (r: Result<(), BlockError>)
        ensures
            final(self).validator_count == old(self).validator_count,
            match gather_error(*block, expected_proposer, old(self).validator_count) {
                Some(e) => r == Err::<(), BlockError>(e),
                None => {
                    &&& r is Ok
                    &&& final(self).outcomes@ == old(self).outcomes@.push(block.proposal_signature_valid)
                        + validities(block.signature_sets@)
                    &&& *final(ctx) == (ConsensusContext {
                        proposer_index: Some(block.header.proposer_index),
                        ..*old(ctx)
                    })
                },
            },
    {
        let proposer = block.proposer_index();
        if proposer != expected_proposer {
            return Err(BlockError::IncorrectBlockProposer { block: proposer, local_shuffling: expected_proposer });
        }
        if proposer >= self.validator_count {
            return Err(BlockError::BeaconChainError(BeaconChainError::ValidatorUnknown(proposer)));
        }
        self.outcomes.push(block.proposal_signature_valid);
        let r = self.include_all_signatures_except_proposal(block);
        if r.is_ok() {
            *ctx = ConsensusContext { proposer_index: Some(proposer), ..*ctx };
        }
        r
    }

    /// One aggregate check over everything gathered: true when every
    /// signature verifies.
    pub fn verify(&self) -> (r: bool)
        ensures
            r == all_valid(self.outcomes@),
    {
        let mut i: usize = 0;
        while i < self.outcomes.len()
            invariant
                i <= self.outcomes.len(),
                forall|j: int| 0 <= j < i ==> #[trigger] self.outcomes@[j],
            decreases self.outcomes.len() - i,
        {
            if !self.outcomes[i] {
                return false;
            }
            i = i + 1;
        }
        true
    }
}

/// Checks the proposer signature of a header alone.
pub fn verify_header_signature(validator_count: u64, header: &SignedBeaconBlockHeader) -> (r: Result<(), BlockError>)
    ensures
        header.message.proposer_index >= validator_count ==> r == Err::<(), BlockError>(
            BlockError::UnknownValidator(header.message.proposer_index),
        ),
        header.message.proposer_index < validator_count && !header.signature_valid ==> r == Err::<
            (),
            BlockError,
        >(BlockError::ProposalSignatureInvalid),
        r is Ok <==> header.message.proposer_index < validator_count && header.signature_valid,
{
    if header.message.proposer_index >= validator_count {
        return Err(BlockError::UnknownValidator(header.message.proposer_index));
    }
    if header.signature_valid {
        Ok(())
    } else {
        Err(BlockError::ProposalSignatureInvalid)
    }
}

} // verus!
