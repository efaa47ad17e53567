use vstd::prelude::*;
use crate::block::BeaconBlockHeader;
use crate::hash::Hash256;

verus! {

/// The proposers of one epoch, as decided by one block.
#[derive(Clone, Debug)]
pub struct ProposerCacheEntry {
    pub epoch: u64,
    pub decision_root: Hash256,
    /// One proposer index per slot of the epoch.
    pub proposers: Vec<u64>,
}

/// Proposer shufflings already computed, keyed by epoch and decision block.
#[derive(Clone, Debug)]
pub struct BeaconProposerCache {
    pub entries: Vec<ProposerCacheEntry>,
}

/// The proposer at position `pos` of the last entry for `(epoch, root)`.
pub open spec fn cached_proposer(entries: Seq<ProposerCacheEntry>, epoch: u64, root: Seq<u8>, pos: int) -> Option<u64>
    decreases entries.len(),
{
    if entries.len() == 0 {
        None
    } else if entries.last().epoch == epoch && entries.last().decision_root@ == root {
        if 0 <= pos < entries.last().proposers.len() {
            Some(entries.last().proposers@[pos])
        } else {
            None
        }
    } else {
        cached_proposer(entries.drop_last(), epoch, root, pos)
    }
}

impl BeaconProposerCache {
    pub fn new() -> (r: Self)
        ensures
            r.entries@.len() == 0,
    {
        BeaconProposerCache { entries: Vec::new() }
    }

    /// The proposer of `slot` under the shuffling decided by `decision_root`,
    /// if it is cached.
    pub fn get_slot(&self, decision_root: &Hash256, slot: u64, slots_per_epoch: u64) -> (r: Option<u64>)
        requires
            slots_per_epoch > 0,
        ensures
            r == cached_proposer(
                self.entries@,
                (slot / slots_per_epoch) as u64,
                decision_root@,
                (slot % slots_per_epoch) as int,
            ),
    {
        let epoch = slot / slots_per_epoch;
        let pos = slot % slots_per_epoch;
        let mut i: usize = self.entries.len();
        assert(self.entries@.subrange(0, i as int) =~= self.entries@);
        while i > 0
            invariant
                i <= self.entries.len(),
                epoch == (slot / slots_per_epoch) as u64,
                pos as int == (slot % slots_per_epoch) as int,
                cached_proposer(self.entries@, epoch, decision_root@, pos as int) == cached_proposer(
                    self.entries@.subrange(0, i as int),
                    epoch,
                    decision_root@,
                    pos as int,
                ),
            decreases i,
        {
            let e = &self.entries[i - 1];
            let ghost pre = self.entries@.subrange(0, i as int);
            assert(pre.last() == *e);
            assert(pre.drop_last() =~= self.entries@.subrange(0, i - 1));
            if e.epoch == epoch && e.decision_root.same(decision_root) {
                if pos < e.proposers.len() as u64 {
                    return Some(e.proposers[pos as usize]);
                } else {
                    return None;
                }
            }
            i = i - 1;
        }
        None
    }

    /// Records the proposers of `epoch` under `decision_root`.
    pub fn insert(&mut self, epoch: u64, decision_root: Hash256, proposers: Vec<u64>)
        ensures
            final(self).entries@ == old(self).entries@.push(
                ProposerCacheEntry { epoch, decision_root, proposers },
            ),
    {
        self.entries.push(ProposerCacheEntry { epoch, decision_root, proposers });
    }
}

/// The headers handed to the slasher.
#[derive(Clone, Debug)]
pub struct Slasher {
    pub headers: Vec<BeaconBlockHeader>,
}

impl Slasher {
    pub fn new() -> (r: Self)
        ensures
            r.headers@.len() == 0,
    {
        Slasher { headers: Vec::new() }
    }

    /// Hands a header with a valid proposer signature to the slasher.
    pub fn accept_block_header(&mut self, header: BeaconBlockHeader)
        ensures
            final(self).headers@ == old(self).headers@.push(header),
    {
        self.headers.push(header);
    }
}

} // verus!
