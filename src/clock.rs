use vstd::prelude::*;

verus! {

/// A reading of the slot clock: genesis, slot length and the time now, all
/// in milliseconds since the Unix epoch.
#[derive(Clone, Copy, Debug)]
pub struct SlotClock {
    pub genesis_ms: u64,
    pub slot_duration_ms: u64,
    /// `None` where the system time could not be read.
    pub now_ms: Option<u64>,
}

/// The slot that time `t` falls in, or `None` before genesis.
pub open spec fn slot_at(genesis_ms: u64, slot_duration_ms: u64, t: int) -> Option<u64> {
    if t < genesis_ms {
        None
    } else {
        Some(((t - genesis_ms) / slot_duration_ms as int) as u64)
    }
}

impl SlotClock {
    pub open spec fn wf(&self) -> bool {
        self.slot_duration_ms > 0
    }

    pub open spec fn now_spec(&self) -> Option<u64> {
        match self.now_ms {
            Some(t) => slot_at(self.genesis_ms, self.slot_duration_ms, t as int),
            None => None,
        }
    }

    /// The slot `tolerance_ms` from now; `None` where the clock cannot be
    /// read or the time does not fit in a `u64`.
    pub open spec fn now_with_tolerance_spec(&self, tolerance_ms: u64) -> Option<u64> {
        match self.now_ms {
            Some(t) => if t + tolerance_ms > u64::MAX {
                None
            } else {
                slot_at(self.genesis_ms, self.slot_duration_ms, t + tolerance_ms)
            },
            None => None,
        }
    }

    fn slot_of(&self, t: u64) -> (r: Option<u64>)
        requires
            self.wf(),
        ensures
            r == slot_at(self.genesis_ms, self.slot_duration_ms, t as int),
    {
        if t < self.genesis_ms {
            None
        } else {
            Some((t - self.genesis_ms) / self.slot_duration_ms)
        }
    }

    /// The present slot.
    pub fn now(&self) -> (r: Option<u64>)
        requires
            self.wf(),
        ensures
            r == self.now_spec(),
    {
        match self.now_ms {
            Some(t) => self.slot_of(t),
            None => None,
        }
    }

    /// The slot that it will be `tolerance_ms` from now. `None` where the
    /// clock cannot be read or the time overflows.
    pub fn now_with_future_tolerance(&self, tolerance_ms: u64) -> (r: Option<u64>)
        requires
            self.wf(),
        ensures
            r == self.now_with_tolerance_spec(tolerance_ms),
    {
        match self.now_ms {
            Some(t) => match t.checked_add(tolerance_ms) {
                Some(later) => self.slot_of(later),
                None => None,
            },
            None => None,
        }
    }

    pub open spec fn start_of_spec(&self, slot: u64) -> Option<u64> {
        let t = self.genesis_ms + slot * self.slot_duration_ms;
        if t <= u64::MAX {
            Some(t as u64)
        } else {
            None
        }
    }

    /// The time at which `slot` starts, or `None` where it does not fit.
    pub fn start_of(&self, slot: u64) -> (r: Option<u64>)
        ensures
            r == self.start_of_spec(slot),
    {
        match slot.checked_mul(self.slot_duration_ms) {
            Some(offset) => self.genesis_ms.checked_add(offset),
            None => {
                assert(slot * self.slot_duration_ms > u64::MAX);
                assert(self.genesis_ms + slot * self.slot_duration_ms > u64::MAX);
                None
            },
        }
    }

    /// How long after the start of a slot unaggregated attestations are
    /// produced: a third of the slot.
    pub fn unagg_attestation_production_delay(&self) -> (r: u64)
        ensures
            r == self.slot_duration_ms / 3,
    {
        self.slot_duration_ms / 3
    }
}

} // verus!
