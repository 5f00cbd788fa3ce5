//! The breakpoint value type and the four-slot breakpoint table.

use vstd::prelude::*;

verus! {

/// Bits of `flags` that a breakpoint may carry: bits 0-1 select the enable
/// mode (00 means disabled), bits 4-7 the hardware condition and length
/// encoding.  Bits 2-3 are reserved and must be clear.
pub const BREAKPOINT_FLAGS_MASK: u8 = 0xF3;

/// One hardware breakpoint: its control flags and the watched address.
#[derive(Clone, Copy, Debug, PartialEq, Eq, Structural)]
pub struct Breakpoint {
    pub flags: u8,
    pub address: usize,
}

impl Breakpoint {
    /// Flags may set only the enable bits (0-1) and the condition/length
    /// bits (4-7); anything else is rejected at the public boundary.
    pub open spec fn valid_flags(flags: u8) -> bool {
        flags & !BREAKPOINT_FLAGS_MASK == 0
    }
}

impl Default for Breakpoint {
    /// The disabled breakpoint: zero flags (enable bits clear), zero address.
    fn default() -> (r: Self)
        ensures
            r == disabled_breakpoint(),
    {
        Breakpoint { flags: 0, address: 0 }
    }
}

/// A breakpoint that never traps: its enable bits are zero.
pub open spec fn disabled_breakpoint() -> Breakpoint {
    Breakpoint { flags: 0, address: 0 }
}

/// The table a freshly started worker owns: no slot holds a breakpoint.
pub open spec fn empty_slots() -> Seq<Option<Breakpoint>> {
    seq![None, None, None, None]
}

/// The table after clearing: every slot holds the disabled breakpoint.
/// Hardware-equivalent to empty slots (zero enable bits never trap), kept
/// this way so that clearing actively rewrites each slot's registers.
pub open spec fn cleared_slots() -> Seq<Option<Breakpoint>> {
    seq![
        Some(disabled_breakpoint()),
        Some(disabled_breakpoint()),
        Some(disabled_breakpoint()),
        Some(disabled_breakpoint()),
    ]
}

/// An occupied slot carries only permitted flag bits.
pub open spec fn slot_wf(s: Option<Breakpoint>) -> bool {
    s matches Some(bp) ==> Breakpoint::valid_flags(bp.flags)
}

/// Fixed array of four optional breakpoints, one per hardware debug-address
/// register.  Owned exclusively by the command worker.
#[derive(Clone, Copy, Debug)]
pub struct BreakpointTable {
    pub slot0: Option<Breakpoint>,
    pub slot1: Option<Breakpoint>,
    pub slot2: Option<Breakpoint>,
    pub slot3: Option<Breakpoint>,
}

impl View for BreakpointTable {
    type V = Seq<Option<Breakpoint>>;

    open spec fn view(&self) -> Seq<Option<Breakpoint>> {
        seq![self.slot0, self.slot1, self.slot2, self.slot3]
    }
}

impl BreakpointTable {
    /// Every occupied slot carries only permitted flag bits.
    pub open spec fn wf(self) -> bool {
        slot_wf(self.slot0) && slot_wf(self.slot1) && slot_wf(self.slot2) && slot_wf(self.slot3)
    }

    /// The table a freshly started worker begins with: all slots empty.
    pub fn empty() -> (t: Self)
        ensures
            t@ == empty_slots(),
            t.wf(),
    {
        let t = BreakpointTable { slot0: None, slot1: None, slot2: None, slot3: None };
        proof {
            assert(t@ =~= empty_slots());
        }
        t
    }

    /// The cleared table: every slot holds the disabled breakpoint.
    pub fn cleared() -> (t: Self)
        ensures
            t@ == cleared_slots(),
            t.wf(),
    {
        let bp = Breakpoint { flags: 0, address: 0 };
        let t = BreakpointTable {
            slot0: Some(bp),
            slot1: Some(bp),
            slot2: Some(bp),
            slot3: Some(bp),
        };
        proof {
            assert(Breakpoint::valid_flags(0u8)) by (bit_vector);
            assert(t@ =~= cleared_slots());
        }
        t
    }

    /// Store a breakpoint in one slot, leaving the other three untouched.
    pub fn set_slot(&mut self, index: u8, bp: Breakpoint)
        requires
            index <= 3,
        ensures
            final(self)@ == old(self)@.update(index as int, Some(bp)),
            old(self).wf() && Breakpoint::valid_flags(bp.flags) ==> final(self).wf(),
    {
        match index {
            0 => self.slot0 = Some(bp),
            1 => self.slot1 = Some(bp),
            2 => self.slot2 = Some(bp),
            _ => self.slot3 = Some(bp),
        }
        proof {
            assert(self@ =~= old(self)@.update(index as int, Some(bp)));
        }
    }
}

} // verus!
