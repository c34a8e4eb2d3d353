//! The Improbability Machine the player works for: its upgrade level sets the
//! cap on how much entropy the player can store at one moment.

use vstd::prelude::*;
use crate::LEVEL_MAX;

verus! {

/// The entropy cap in millibits that a machine of the given level grants:
/// 100 bits plus one bit per level.
pub open spec fn spec_entropy_cap(level: int) -> int {
    100_000 + 1000 * level
}

/// The Improbability Machine. Its level converts invested money into entropy
/// storage capacity.
#[derive(Clone, Copy, Debug)]
pub struct Machine {
    /// The current upgrade level of the machine, in whole levels.
    pub level: u64,
}

impl Machine {
    /// A machine is well formed when its level stays below the bound that
    /// keeps cap arithmetic free of overflow.
    pub open spec fn wf(self) -> bool {
        self.level <= LEVEL_MAX
    }

    pub fn new(level: u64) -> (m: Machine)
        requires
            level <= LEVEL_MAX,
        ensures
            m.level == level,
            m.wf(),
    {
        Machine { level }
    }

    /// The maximum entropy, in millibits, that the machine can store:
    /// 100 bits plus one bit per level.
    pub fn entropy_cap(&self) -> (cap: u64)
        requires
            self.wf(),
        ensures
            cap == spec_entropy_cap(self.level as int),
    {
        100_000 + 1000 * self.level
    }
}

/// The entropy cap never decreases as the machine level rises.
pub proof fn lemma_entropy_cap_monotone(l1: int, l2: int)
    requires
        l1 <= l2,
    ensures
        spec_entropy_cap(l1) <= spec_entropy_cap(l2),
{
}

} // verus!
