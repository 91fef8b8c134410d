//! Kinds of watering cycles.  The order of the kinds is the order in which
//! cycles are kept: the internal cycles (wizard, compensation, direct) come
//! before the standard ones.
use vstd::prelude::*;

verus! {

#[derive(Debug, Clone, Copy, PartialEq, Eq, Structural)]
pub enum CycleType {
    Wizard,
    Compensation,
    Direct,
    Standard,
}

impl CycleType {
    pub open spec fn spec_code(self) -> u8 {
        match self {
            CycleType::Wizard => 0,
            CycleType::Compensation => 1,
            CycleType::Direct => 2,
            CycleType::Standard => 3,
        }
    }

    /// The code of the kind, which also orders the kinds.
    pub fn code(&self) -> (c: u8)
        ensures
            c == self.spec_code(),
    {
        match self {
            CycleType::Wizard => 0,
            CycleType::Compensation => 1,
            CycleType::Direct => 2,
            CycleType::Standard => 3,
        }
    }

    /// The kind with code `value`, which must name one.
    pub fn from_unchecked(value: u8) -> (t: CycleType)
        requires
            value <= 3,
        ensures
            t.spec_code() == value,
    {
        if value == 0 {
            CycleType::Wizard
        } else if value == 1 {
            CycleType::Compensation
        } else if value == 2 {
            CycleType::Direct
        } else {
            CycleType::Standard
        }
    }

    /// Whether cycles of this kind are kept before cycles of kind `other`.
    pub fn precedes(&self, other: &CycleType) -> (r: bool)
        ensures
            r == (self.spec_code() < other.spec_code()),
    {
        self.code() < other.code()
    }
}

impl Default for CycleType {
    /// Cycles are standard unless said otherwise.
    fn default() -> (t: CycleType)
        ensures
            t == CycleType::Standard,
    {
        CycleType::Standard
    }
}

/// Distinct kinds have distinct codes.
pub proof fn law_cycle_type_code_injective(a: CycleType, b: CycleType)
    ensures
        a.spec_code() == b.spec_code() <==> a == b,
{
}

} // verus!
