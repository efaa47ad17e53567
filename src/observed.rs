use vstd::prelude::*;
use crate::block::BeaconBlockHeader;
use crate::errors::ObserveError;
use crate::hash::Hash256;

verus! {

/// How a proposal compares with those already seen from its proposer at its
/// slot.
#[derive(Clone, Copy, Debug, PartialEq, Eq, Structural)]
pub enum SeenBlock {
    /// No block was seen from this proposer at this slot.
    UniqueNonSlashable,
    /// This very block was seen, and no other.
    Duplicate,
    /// Another block was seen from this proposer at this slot.
    Slashable,
}

/// One proposal observed: a block root at a (slot, proposer) pair.
#[derive(Clone, Copy, Debug)]
pub struct Observation {
    pub slot: u64,
    pub proposer: u64,
    pub root: Hash256,
}

/// The proposals seen so far, kept for the slots after finalization.
#[derive(Clone, Debug)]
pub struct ObservedBlockProducers {
    pub finalized_slot: u64,
    /// Proposer indices at or above this are refused.
    pub validator_limit: u64,
    pub observations: Vec<Observation>,
}

/// The outcome of seeing `root` when the roots in `seen` were already seen
/// from the same proposer at the same slot.
pub open spec fn seen_outcome(seen: Set<Seq<u8>>, root: Seq<u8>) -> SeenBlock {
    if exists|other: Seq<u8>| seen.contains(other) && other != root {
        SeenBlock::Slashable
    } else if seen.contains(root) {
        SeenBlock::Duplicate
    } else {
        SeenBlock::UniqueNonSlashable
    }
}

impl ObservedBlockProducers {
    /// The roots seen from `proposer` at `slot`.
    pub open spec fn seen(&self, slot: u64, proposer: u64) -> Set<Seq<u8>> {
        Set::new(
            |r: Seq<u8>|
                exists|i: int|
                    0 <= i < self.observations.len() && (#[trigger] self.observations@[i]).slot
                        == slot && self.observations@[i].proposer == proposer
                        && self.observations@[i].root@ == r,
        )
    }

    pub open spec fn check_spec(&self, header: BeaconBlockHeader) -> Result<(), ObserveError> {
        if header.proposer_index >= self.validator_limit {
            Err(ObserveError::ValidatorIndexTooHigh { index: header.proposer_index })
        } else if header.slot <= self.finalized_slot {
            Err(ObserveError::FinalizedBlock { slot: header.slot, finalized_slot: self.finalized_slot })
        } else {
            Ok(())
        }
    }

    /// An empty cache.
    pub fn new(finalized_slot: u64, validator_limit: u64) -> (r: Self)
        ensures
            r.finalized_slot == finalized_slot,
            r.validator_limit == validator_limit,
            forall|s: u64, p: u64| r.seen(s, p) == Set::<Seq<u8>>::empty(),
    {
        let r = ObservedBlockProducers { finalized_slot, validator_limit, observations: Vec::new() };
        assert forall|s: u64, p: u64| r.seen(s, p) == Set::<Seq<u8>>::empty() by {
            assert(r.seen(s, p) =~= Set::<Seq<u8>>::empty());
        }
        r
    }

    fn check(&self, header: &BeaconBlockHeader) -> (r: Result<(), ObserveError>)
        ensures
            r == self.check_spec(*header),
    {
        if header.proposer_index >= self.validator_limit {
            Err(ObserveError::ValidatorIndexTooHigh { index: header.proposer_index })
        } else if header.slot <= self.finalized_slot {
            Err(ObserveError::FinalizedBlock { slot: header.slot, finalized_slot: self.finalized_slot })
        } else {
            Ok(())
        }
    }

    /// Scans the observations for `(slot, proposer)`: whether `root` is among
    /// them, and whether another root is.
    fn scan(&self, slot: u64, proposer: u64, root: &Hash256) -> (r: (bool, bool))
        ensures
            r.0 == self.seen(slot, proposer).contains(root@),
            r.1 == exists|other: Seq<u8>| self.seen(slot, proposer).contains(other) && other != root@,
    {
        let mut same = false;
        let mut other = false;
        let mut i: usize = 0;
        while i < self.observations.len()
            invariant
                i <= self.observations.len(),
                same == exists|j: int|
                    0 <= j < i && (#[trigger] self.observations@[j]).slot == slot
                        && self.observations@[j].proposer == proposer
                        && self.observations@[j].root@ == root@,
                other == exists|j: int|
                    0 <= j < i && (#[trigger] self.observations@[j]).slot == slot
                        && self.observations@[j].proposer == proposer
                        && self.observations@[j].root@ != root@,
            decreases self.observations.len() - i,
        {
            let o = self.observations[i];
            if o.slot == slot && o.proposer == proposer {
                if o.root.same(root) {
                    same = true;
                } else {
                    other = true;
                }
            }
            i = i + 1;
        }
        proof {
            let s = self.seen(slot, proposer);
            if other {
                let j = choose|j: int|
                    0 <= j < self.observations.len() && (#[trigger] self.observations@[j]).slot
                        == slot && self.observations@[j].proposer == proposer
                        && self.observations@[j].root@ != root@;
                assert(s.contains(self.observations@[j].root@));
            }
        }
        (same, other)
    }

    /// Whether a block from the header's proposer was seen at its slot,
    /// without recording it.
    pub fn proposer_has_been_observed(&self, header: &BeaconBlockHeader, root: &Hash256) -> (r: Result<
        SeenBlock,
        ObserveError,
    >)
        ensures
            match self.check_spec(*header) {
                Err(e) => r == Err::<SeenBlock, ObserveError>(e),
                Ok(_) => r == Ok::<SeenBlock, ObserveError>(
                    seen_outcome(self.seen(header.slot, header.proposer_index), root@),
                ),
            },
    {
        self.check(header)?;
        let (same, other) = self.scan(header.slot, header.proposer_index, root);
        if other {
            Ok(SeenBlock::Slashable)
        } else if same {
            Ok(SeenBlock::Duplicate)
        } else {
            Ok(SeenBlock::UniqueNonSlashable)
        }
    }

    /// Records the proposal of `root` by the header's proposer at its slot and
    /// says how it compares with those seen before.
    pub fn observe_proposal(&mut self, root: &Hash256, header: &BeaconBlockHeader) -> (r: Result<
        SeenBlock,
        ObserveError,
    >)
        ensures
            final(self).finalized_slot == old(self).finalized_slot,
            final(self).validator_limit == old(self).validator_limit,
            match old(self).check_spec(*header) {
                Err(e) => r == Err::<SeenBlock, ObserveError>(e) && *final(self) == *old(self),
                Ok(_) => {
                    &&& r == Ok::<SeenBlock, ObserveError>(
                        seen_outcome(old(self).seen(header.slot, header.proposer_index), root@),
                    )
                    &&& final(self).seen(header.slot, header.proposer_index) == old(self).seen(
                        header.slot,
                        header.proposer_index,
                    ).insert(root@)
                    &&& forall|s: u64, p: u64|
                        !(s == header.slot && p == header.proposer_index) ==> final(self).seen(s, p)
                            == old(self).seen(s, p)
                },
            },
    {
        self.check(header)?;
        let (same, other) = self.scan(header.slot, header.proposer_index, root);
        let ghost before = *self;
        self.observations.push(
            Observation { slot: header.slot, proposer: header.proposer_index, root: *root },
        );
        let ghost n = before.observations.len();
        assert forall|s: u64, p: u64|
            !(s == header.slot && p == header.proposer_index) implies self.seen(s, p) == before.seen(
            s,
            p,
        ) by {
            assert forall|r: Seq<u8>| self.seen(s, p).contains(r) implies before.seen(s, p).contains(r) by {
                let i = choose|i: int|
                    0 <= i < self.observations.len() && (#[trigger] self.observations@[i]).slot == s
                        && self.observations@[i].proposer == p && self.observations@[i].root@ == r;
                assert(i < n);
                assert(before.observations@[i] == self.observations@[i]);
            }
            assert forall|r: Seq<u8>| before.seen(s, p).contains(r) implies self.seen(s, p).contains(r) by {
                let i = choose|i: int|
                    0 <= i < before.observations.len() && (#[trigger] before.observations@[i]).slot == s
                        && before.observations@[i].proposer == p && before.observations@[i].root@ == r;
                assert(before.observations@[i] == self.observations@[i]);
            }
            assert(self.seen(s, p) =~= before.seen(s, p));
        }
        let ghost key_s = header.slot;
        let ghost key_p = header.proposer_index;
        assert forall|r: Seq<u8>| self.seen(key_s, key_p).contains(r) <==> before.seen(key_s, key_p).insert(root@).contains(r) by {
            if self.seen(key_s, key_p).contains(r) {
                let i = choose|i: int|
                    0 <= i < self.observations.len() && (#[trigger] self.observations@[i]).slot == key_s
                        && self.observations@[i].proposer == key_p && self.observations@[i].root@ == r;
                if i < n {
                    assert(before.observations@[i] == self.observations@[i]);
                }
            }
            if before.seen(key_s, key_p).contains(r) {
                let i = choose|i: int|
                    0 <= i < before.observations.len() && (#[trigger] before.observations@[i]).slot == key_s
                        && before.observations@[i].proposer == key_p && before.observations@[i].root@ == r;
                assert(before.observations@[i] == self.observations@[i]);
            }
            if r == root@ {
                assert(self.observations@[n as int].root@ == r);
            }
        }
        assert(self.seen(key_s, key_p) =~= before.seen(key_s, key_p).insert(root@));
        if other {
            Ok(SeenBlock::Slashable)
        } else if same {
            Ok(SeenBlock::Duplicate)
        } else {
            Ok(SeenBlock::UniqueNonSlashable)
        }
    }
}

/// Once one root is recorded for a proposer and slot, any different root
/// observed there is slashable, and the first stays the only non-slashable
/// one: seeing it again is a duplicate as long as nothing else was seen.
pub proof fn lemma_second_distinct_root_is_slashable(seen: Set<Seq<u8>>, first: Seq<u8>, second: Seq<u8>)
    requires
        first != second,
    ensures
        seen_outcome(seen.insert(first), second) == SeenBlock::Slashable,
        seen_outcome(Set::empty().insert(first), first) == SeenBlock::Duplicate,
        seen_outcome(Set::empty(), first) == SeenBlock::UniqueNonSlashable,
{
    assert(seen.insert(first).contains(first));
    let once = Set::<Seq<u8>>::empty().insert(first);
    assert(!(exists|other: Seq<u8>| once.contains(other) && other != first));
    assert(once.contains(first));
}

} // verus!
