use vstd::prelude::*;
use crate::hash::{merkle_root, merkle_root_of, push_root_chunk, push_u64_chunk, u64_chunk, Hash256};

verus! {

/// A block's header: what its root is computed from.
#[derive(Clone, Copy, Debug)]
pub struct BeaconBlockHeader {
    pub slot: u64,
    pub proposer_index: u64,
    pub parent_root: Hash256,
    pub state_root: Hash256,
    pub body_root: Hash256,
}

/// The consensus forks a block's structure may belong to, oldest first.
#[derive(Clone, Copy, Debug, PartialEq, Eq, Structural)]
pub enum ForkName {
    Base,
    Altair,
    Merge,
    Capella,
}

/// What a signature referenced by a block signs.
#[derive(Clone, Copy, Debug, PartialEq, Eq, Structural)]
pub enum SignatureKind {
    Randao,
    Attestation,
    AttesterSlashing,
    ProposerSlashing,
    VoluntaryExit,
    BlsToExecutionChange,
}

/// One signature referenced by a block, and whether it verifies against its
/// signer's public key.
#[derive(Clone, Copy, Debug)]
pub struct SignatureSet {
    pub kind: SignatureKind,
    pub signer: u64,
    pub valid: bool,
}

/// What the pipeline reads of a block's execution payload.
#[derive(Clone, Copy, Debug)]
pub struct ExecutionPayloadSummary {
    pub timestamp: u64,
    pub block_hash: Hash256,
    pub parent_hash: Hash256,
}

/// A block header with its proposer's signature.
#[derive(Clone, Copy, Debug)]
pub struct SignedBeaconBlockHeader {
    pub message: BeaconBlockHeader,
    /// Whether the proposer's signature over the header verifies.
    pub signature_valid: bool,
}

/// A signed beacon block as the verification pipeline sees it.
#[derive(Clone, Debug)]
pub struct SignedBeaconBlock {
    pub header: BeaconBlockHeader,
    /// Whether the proposer's signature over the block verifies.
    pub proposal_signature_valid: bool,
    /// The fork whose structure the block has.
    pub fork: ForkName,
    /// Every other signature the block references (RANDAO reveal, attestations,
    /// slashings, exits, credential changes), deposits excluded.
    pub signature_sets: Vec<SignatureSet>,
    pub execution_payload: Option<ExecutionPayloadSummary>,
    /// Whether the payload is the merge transition payload.
    pub is_merge_transition: bool,
}

/// The bytes whose merkle root is a header's root: one chunk per field.
pub open spec fn header_chunks(h: BeaconBlockHeader) -> Seq<u8> {
    u64_chunk(h.slot) + u64_chunk(h.proposer_index) + h.parent_root@ + h.state_root@ + h.body_root@
}

/// The tree-hash root of a header.
pub open spec fn header_root(h: BeaconBlockHeader) -> Seq<u8> {
    merkle_root_of(header_chunks(h))
}

impl BeaconBlockHeader {
    /// The tree-hash root of the header, which is the root of its block.
    pub fn canonical_root(&self) -> (r: Hash256)
        ensures
            r@ == header_root(*self),
    {
        let mut bytes: Vec<u8> = Vec::new();
        push_u64_chunk(&mut bytes, self.slot);
        push_u64_chunk(&mut bytes, self.proposer_index);
        push_root_chunk(&mut bytes, &self.parent_root);
        push_root_chunk(&mut bytes, &self.state_root);
        push_root_chunk(&mut bytes, &self.body_root);
        assert(bytes@ =~= header_chunks(*self));
        merkle_root(&bytes)
    }
}

impl SignedBeaconBlock {
    pub fn slot(&self) -> (r: u64)
        ensures
            r == self.header.slot,
    {
        self.header.slot
    }

    pub fn parent_root(&self) -> (r: Hash256)
        ensures
            r == self.header.parent_root,
    {
        self.header.parent_root
    }

    pub fn proposer_index(&self) -> (r: u64)
        ensures
            r == self.header.proposer_index,
    {
        self.header.proposer_index
    }

    pub open spec fn signed_header_spec(&self) -> SignedBeaconBlockHeader {
        SignedBeaconBlockHeader { message: self.header, signature_valid: self.proposal_signature_valid }
    }

    pub fn signed_block_header(&self) -> (r: SignedBeaconBlockHeader)
        ensures
            r == self.signed_header_spec(),
    {
        SignedBeaconBlockHeader { message: self.header, signature_valid: self.proposal_signature_valid }
    }

    /// The root of the block.
    pub fn canonical_root(&self) -> (r: Hash256)
        ensures
            r@ == header_root(self.header),
    {
        self.header.canonical_root()
    }
}

} // verus!
