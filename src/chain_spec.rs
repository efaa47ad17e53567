use vstd::prelude::*;
use crate::block::ForkName;

verus! {

/// Blocks with a slot at or above this are never processed.
pub const MAXIMUM_BLOCK_SLOT_NUMBER: u64 = 4294967296;

/// Chain parameters the pipeline reads.
#[derive(Clone, Copy, Debug)]
pub struct ChainSpec {
    pub slots_per_epoch: u64,
    pub seconds_per_slot: u64,
    pub genesis_time: u64,
    pub altair_fork_epoch: Option<u64>,
    pub bellatrix_fork_epoch: Option<u64>,
    pub capella_fork_epoch: Option<u64>,
    /// Tolerance, in milliseconds, granted to gossip blocks from a slightly
    /// future slot.
    pub maximum_gossip_clock_disparity_ms: u64,
    /// How far behind the clock a block must be to be imported optimistically
    /// before the justified block has an execution payload.
    pub safe_slots_to_import_optimistically: u64,
}

impl ChainSpec {
    pub open spec fn wf(&self) -> bool {
        self.slots_per_epoch > 0
    }
}

pub open spec fn epoch_of(slot: u64, slots_per_epoch: u64) -> u64
    recommends
        slots_per_epoch > 0,
{
    (slot / slots_per_epoch) as u64
}

/// The epoch that `slot` lies in.
pub fn slot_epoch(slot: u64, slots_per_epoch: u64) -> (r: u64)
    requires
        slots_per_epoch > 0,
    ensures
        r == epoch_of(slot, slots_per_epoch),
{
    slot / slots_per_epoch
}

/// The first slot of `epoch`, saturating at `u64::MAX`.
pub open spec fn start_slot_of(epoch: u64, slots_per_epoch: u64) -> u64 {
    if epoch * slots_per_epoch > u64::MAX {
        u64::MAX
    } else {
        (epoch * slots_per_epoch) as u64
    }
}

pub fn epoch_start_slot(epoch: u64, slots_per_epoch: u64) -> (r: u64)
    ensures
        r == start_slot_of(epoch, slots_per_epoch),
{
    epoch.checked_mul(slots_per_epoch).unwrap_or(u64::MAX)
}

pub open spec fn activated(fork_epoch: Option<u64>, epoch: u64) -> bool {
    match fork_epoch {
        Some(e) => e <= epoch,
        None => false,
    }
}

/// The fork that is in force at `epoch`.
pub open spec fn fork_at_epoch(spec: ChainSpec, epoch: u64) -> ForkName {
    if activated(spec.capella_fork_epoch, epoch) {
        ForkName::Capella
    } else if activated(spec.bellatrix_fork_epoch, epoch) {
        ForkName::Merge
    } else if activated(spec.altair_fork_epoch, epoch) {
        ForkName::Altair
    } else {
        ForkName::Base
    }
}

fn is_activated(fork_epoch: Option<u64>, epoch: u64) -> (r: bool)
    ensures
        r == activated(fork_epoch, epoch),
{
    match fork_epoch {
        Some(e) => e <= epoch,
        None => false,
    }
}

impl ChainSpec {
    /// The fork that is in force at `slot`.
    pub fn fork_name_at_slot(&self, slot: u64) -> (r: ForkName)
        requires
            self.wf(),
        ensures
            r == fork_at_epoch(*self, epoch_of(slot, self.slots_per_epoch)),
    {
        let epoch = slot_epoch(slot, self.slots_per_epoch);
        if is_activated(self.capella_fork_epoch, epoch) {
            ForkName::Capella
        } else if is_activated(self.bellatrix_fork_epoch, epoch) {
            ForkName::Merge
        } else if is_activated(self.altair_fork_epoch, epoch) {
            ForkName::Altair
        } else {
            ForkName::Base
        }
    }
}

} // verus!
