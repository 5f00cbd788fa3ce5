//! Debug-register codec: the pure transformation between the four-slot
//! breakpoint table and the bit layout of one thread's debug-control and
//! debug-address registers.

use vstd::prelude::*;
use crate::breakpoint::Breakpoint;
use crate::breakpoint::BreakpointTable;
use crate::breakpoint::cleared_slots;

verus! {

/// The fields of one thread's execution context that this component reads or
/// rewrites: the four debug-address registers, the debug-status register, the
/// debug-control register, the flags register and the instruction pointer.
/// A capability-restricted view of the machine context; everything else in
/// the hardware context is out of this component's reach.
#[derive(Clone, Copy, Debug, PartialEq, Eq, Structural)]
pub struct DebugContext {
    pub dr0: u64,
    pub dr1: u64,
    pub dr2: u64,
    pub dr3: u64,
    pub dr6: u64,
    pub dr7: u64,
    pub eflags: u32,
    pub rip: u64,
}

/// The enable-mode bits (bits 0-1) of a breakpoint's flags.
pub open spec fn bp_enable_bits(flags: u8) -> u64 {
    (flags & 3) as u64
}

/// The condition/length nibble (bits 4-7) of a breakpoint's flags.
pub open spec fn bp_cond_bits(flags: u8) -> u64 {
    ((flags & 0xF0) >> 4) as u64
}

/// The debug-control-register bits owned by slot `i`: its two enable bits
/// (bits 2i..2i+1) and its condition/length nibble (bits 16+4i..19+4i).
pub open spec fn dr7_slot_mask(i: u64) -> u64 {
    (3u64 << (2 * i)) | (0xFu64 << (16 + 4 * i))
}

/// Read-modify-write of slot `i`'s fields in the debug-control register:
/// clear exactly the bits the slot owns, then OR in the new encoding.
pub open spec fn dr7_set_slot(dr7: u64, flags: u8, i: u64) -> u64 {
    (dr7 & !dr7_slot_mask(i)) | (bp_enable_bits(flags) << (2 * i)) | (bp_cond_bits(flags) << (16
        + 4 * i))
}

/// One slot's contribution: an occupied slot rewrites its fields, an empty
/// slot leaves the register untouched.
pub open spec fn dr7_apply_slot(dr7: u64, slot: Option<Breakpoint>, i: u64) -> u64 {
    match slot {
        None => dr7,
        Some(bp) => dr7_set_slot(dr7, bp.flags, i),
    }
}

/// The enable bits contributed by one slot to the shared summary bits.
pub open spec fn slot_enable_or(slot: Option<Breakpoint>) -> u64 {
    match slot {
        None => 0,
        Some(bp) => bp_enable_bits(bp.flags),
    }
}

/// OR of the enable bits of every occupied slot.
pub open spec fn table_enable_or(t: Seq<Option<Breakpoint>>) -> u64
    recommends
        t.len() == 4,
{
    ((slot_enable_or(t[0]) | slot_enable_or(t[1])) | slot_enable_or(t[2])) | slot_enable_or(t[3])
}

/// The debug-control register after pushing a whole table: each occupied
/// slot's fields are rewritten in turn, then the occupied slots' enable bits
/// are ORed into the shared summary bits (bits 8-9).
pub open spec fn dr7_apply_table(dr7: u64, t: Seq<Option<Breakpoint>>) -> u64
    recommends
        t.len() == 4,
{
    dr7_apply_slot(dr7_apply_slot(dr7_apply_slot(dr7_apply_slot(dr7, t[0], 0), t[1], 1), t[2], 2),
        t[3], 3) | (table_enable_or(t) << 8)
}

/// Slot `i`'s enable-mode bits as stored in a debug-control register value.
pub open spec fn dr7_enable_field(dr7: u64, i: u64) -> u64 {
    (dr7 >> (2 * i)) & 3
}

/// Slot `i`'s condition/length nibble as stored in a debug-control register value.
pub open spec fn dr7_cond_field(dr7: u64, i: u64) -> u64 {
    (dr7 >> (16 + 4 * i)) & 0xF
}

/// Decode slot `i`'s flags byte back out of a debug-control register value.
pub open spec fn decode_slot_flags(dr7: u64, i: u64) -> u8 {
    (dr7_enable_field(dr7, i) | (dr7_cond_field(dr7, i) << 4)) as u8
}

/// Bits of the debug-control register owned by no slot and not part of the
/// shared enable-summary bits (bits 8-9): bits 10-15 and 32-63.
pub const DR7_UNRELATED_MASK: u64 = 0xFFFF_FFFF_0000_FC00;

/// Writing one slot's encoding sets exactly that slot's fields and leaves
/// everything else - the other slots, the summary bits, the unrelated bits -
/// as it was.
proof fn lemma_set_slot_own_fields(dr7: u64, f: u8, i: u64)
    by (bit_vector)
    requires
        i < 4,
    ensures
        dr7_enable_field(dr7_set_slot(dr7, f, i), i) == bp_enable_bits(f),
        dr7_cond_field(dr7_set_slot(dr7, f, i), i) == bp_cond_bits(f),
        (dr7_set_slot(dr7, f, i) >> 8) & 3 == (dr7 >> 8) & 3,
        dr7_set_slot(dr7, f, i) & DR7_UNRELATED_MASK == dr7 & DR7_UNRELATED_MASK,
{
}

/// Writing one slot leaves every other slot's fields untouched.
proof fn lemma_set_slot_frame(dr7: u64, f: u8, i: u64, j: u64)
    by (bit_vector)
    requires
        i < 4,
        j < 4,
        i != j,
    ensures
        dr7_enable_field(dr7_set_slot(dr7, f, i), j) == dr7_enable_field(dr7, j),
        dr7_cond_field(dr7_set_slot(dr7, f, i), j) == dr7_cond_field(dr7, j),
{
}

/// ORing a two-bit value into the summary bits changes only them.
proof fn lemma_enable_summary_or(dr7: u64, a: u64, i: u64)
    by (bit_vector)
    requires
        a <= 3,
        i < 4,
    ensures
        dr7_enable_field(dr7 | (a << 8), i) == dr7_enable_field(dr7, i),
        dr7_cond_field(dr7 | (a << 8), i) == dr7_cond_field(dr7, i),
        ((dr7 | (a << 8)) >> 8) & 3 == ((dr7 >> 8) & 3) | a,
        (dr7 | (a << 8)) & DR7_UNRELATED_MASK == dr7 & DR7_UNRELATED_MASK,
{
}

proof fn lemma_enable_bits_bound(f: u8)
    by (bit_vector)
    ensures
        (f & 3) as u64 <= 3,
{
}

proof fn lemma_or_of_small(a: u64, b: u64, c: u64, d: u64)
    by (bit_vector)
    requires
        a <= 3,
        b <= 3,
        c <= 3,
        d <= 3,
    ensures
        ((a | b) | c) | d <= 3,
{
}

/// The occupied slots' enable bits OR together into a two-bit value.
proof fn lemma_enable_or_bound(t: Seq<Option<Breakpoint>>)
    requires
        t.len() == 4,
    ensures
        table_enable_or(t) <= 3,
{
    match t[0] {
        Some(bp) => lemma_enable_bits_bound(bp.flags),
        None => (),
    }
    match t[1] {
        Some(bp) => lemma_enable_bits_bound(bp.flags),
        None => (),
    }
    match t[2] {
        Some(bp) => lemma_enable_bits_bound(bp.flags),
        None => (),
    }
    match t[3] {
        Some(bp) => lemma_enable_bits_bound(bp.flags),
        None => (),
    }
    lemma_or_of_small(
        slot_enable_or(t[0]),
        slot_enable_or(t[1]),
        slot_enable_or(t[2]),
        slot_enable_or(t[3]),
    );
}

/// Field-level reading of a whole-table push: each occupied slot's fields
/// carry exactly that slot's encoding, each empty slot's fields are what they
/// were, the occupied slots' enable bits are ORed into the summary bits, and
/// every unrelated bit survives.
pub proof fn lemma_apply_table_fields(dr7: u64, t: Seq<Option<Breakpoint>>, i: u64)
    requires
        t.len() == 4,
        i < 4,
    ensures
        t[i as int] matches Some(bp) ==> dr7_enable_field(dr7_apply_table(dr7, t), i)
            == bp_enable_bits(bp.flags) && dr7_cond_field(dr7_apply_table(dr7, t), i)
            == bp_cond_bits(bp.flags),
        t[i as int] is None ==> dr7_enable_field(dr7_apply_table(dr7, t), i) == dr7_enable_field(
            dr7,
            i,
        ) && dr7_cond_field(dr7_apply_table(dr7, t), i) == dr7_cond_field(dr7, i),
        (dr7_apply_table(dr7, t) >> 8) & 3 == ((dr7 >> 8) & 3) | table_enable_or(t),
        dr7_apply_table(dr7, t) & DR7_UNRELATED_MASK == dr7 & DR7_UNRELATED_MASK,
{
    let x0 = dr7;
    let x1 = dr7_apply_slot(x0, t[0], 0);
    let x2 = dr7_apply_slot(x1, t[1], 1);
    let x3 = dr7_apply_slot(x2, t[2], 2);
    let x4 = dr7_apply_slot(x3, t[3], 3);
    match t[0] {
        Some(bp) => {
            lemma_set_slot_own_fields(x0, bp.flags, 0);
            if i != 0 {
                lemma_set_slot_frame(x0, bp.flags, 0, i);
            }
        },
        None => (),
    }
    match t[1] {
        Some(bp) => {
            lemma_set_slot_own_fields(x1, bp.flags, 1);
            if i != 1 {
                lemma_set_slot_frame(x1, bp.flags, 1, i);
            }
        },
        None => (),
    }
    match t[2] {
        Some(bp) => {
            lemma_set_slot_own_fields(x2, bp.flags, 2);
            if i != 2 {
                lemma_set_slot_frame(x2, bp.flags, 2, i);
            }
        },
        None => (),
    }
    match t[3] {
        Some(bp) => {
            lemma_set_slot_own_fields(x3, bp.flags, 3);
            if i != 3 {
                lemma_set_slot_frame(x3, bp.flags, 3, i);
            }
        },
        None => (),
    }
    lemma_enable_or_bound(t);
    lemma_enable_summary_or(x4, table_enable_or(t), i);
}

/// Push the breakpoint table into one thread's context: rewrite the
/// debug-address register of every occupied slot and recompute the
/// debug-control register, slot by slot, without touching bits the table
/// does not own.  Purely a bit transformation: no failure mode.
pub fn context_set_breakpoints(context: &mut DebugContext, breakpoints: &BreakpointTable)
    ensures
        final(context).dr7 == dr7_apply_table(old(context).dr7, breakpoints@),
        final(context).dr0 == match breakpoints.slot0 {
            Some(bp) => bp.address as u64,
            None => old(context).dr0,
        },
        final(context).dr1 == match breakpoints.slot1 {
            Some(bp) => bp.address as u64,
            None => old(context).dr1,
        },
        final(context).dr2 == match breakpoints.slot2 {
            Some(bp) => bp.address as u64,
            None => old(context).dr2,
        },
        final(context).dr3 == match breakpoints.slot3 {
            Some(bp) => bp.address as u64,
            None => old(context).dr3,
        },
        final(context).dr6 == old(context).dr6,
        final(context).eflags == old(context).eflags,
        final(context).rip == old(context).rip,
{
    let mut dr7: u64 = context.dr7;
    let e0: u64 = match breakpoints.slot0 {
        Some(bp) => (bp.flags & 3) as u64,
        None => 0,
    };
    let e1: u64 = match breakpoints.slot1 {
        Some(bp) => (bp.flags & 3) as u64,
        None => 0,
    };
    let e2: u64 = match breakpoints.slot2 {
        Some(bp) => (bp.flags & 3) as u64,
        None => 0,
    };
    let e3: u64 = match breakpoints.slot3 {
        Some(bp) => (bp.flags & 3) as u64,
        None => 0,
    };
    if let Some(bp) = breakpoints.slot0 {
        let f: u8 = bp.flags;
        let c: u64 = ((f & 0xF0) >> 4) as u64;
        context.dr0 = bp.address as u64;
        let next: u64 = (dr7 & !0xF_0003u64) | e0 | (c << 16u64);
        proof {
            assert(next == dr7_set_slot(dr7, f, 0)) by (bit_vector)
                requires
                    next == (dr7 & !0xF_0003u64) | e0 | (c << 16u64),
                    e0 == (f & 3) as u64,
                    c == ((f & 0xF0) >> 4) as u64,
            ;
        }
        dr7 = next;
    }
    if let Some(bp) = breakpoints.slot1 {
        let f: u8 = bp.flags;
        let c: u64 = ((f & 0xF0) >> 4) as u64;
        context.dr1 = bp.address as u64;
        let next: u64 = (dr7 & !0xF0_000Cu64) | (e1 << 2u64) | (c << 20u64);
        proof {
            assert(next == dr7_set_slot(dr7, f, 1)) by (bit_vector)
                requires
                    next == (dr7 & !0xF0_000Cu64) | (e1 << 2u64) | (c << 20u64),
                    e1 == (f & 3) as u64,
                    c == ((f & 0xF0) >> 4) as u64,
            ;
        }
        dr7 = next;
    }
    if let Some(bp) = breakpoints.slot2 {
        let f: u8 = bp.flags;
        let c: u64 = ((f & 0xF0) >> 4) as u64;
        context.dr2 = bp.address as u64;
        let next: u64 = (dr7 & !0xF00_0030u64) | (e2 << 4u64) | (c << 24u64);
        proof {
            assert(next == dr7_set_slot(dr7, f, 2)) by (bit_vector)
                requires
                    next == (dr7 & !0xF00_0030u64) | (e2 << 4u64) | (c << 24u64),
                    e2 == (f & 3) as u64,
                    c == ((f & 0xF0) >> 4) as u64,
            ;
        }
        dr7 = next;
    }
    if let Some(bp) = breakpoints.slot3 {
        let f: u8 = bp.flags;
        let c: u64 = ((f & 0xF0) >> 4) as u64;
        context.dr3 = bp.address as u64;
        let next: u64 = (dr7 & !0xF000_00C0u64) | (e3 << 6u64) | (c << 28u64);
        proof {
            assert(next == dr7_set_slot(dr7, f, 3)) by (bit_vector)
                requires
                    next == (dr7 & !0xF000_00C0u64) | (e3 << 6u64) | (c << 28u64),
                    e3 == (f & 3) as u64,
                    c == ((f & 0xF0) >> 4) as u64,
            ;
        }
        dr7 = next;
    }
    let any: u64 = ((e0 | e1) | e2) | e3;
    context.dr7 = dr7 | (any << 8u64);
    proof {
        assert(breakpoints@[0] == breakpoints.slot0);
        assert(breakpoints@[1] == breakpoints.slot1);
        assert(breakpoints@[2] == breakpoints.slot2);
        assert(breakpoints@[3] == breakpoints.slot3);
        assert(any == table_enable_or(breakpoints@));
    }
}

/// Read slot `index`'s flags byte back out of a debug-control register value.
pub fn read_slot_flags(dr7: u64, index: u8) -> (r: u8)
    requires
        index <= 3,
    ensures
        r == decode_slot_flags(dr7, index as u64),
{
    let e: u64 = (dr7 >> (2 * index as u32)) & 3;
    let c: u64 = (dr7 >> (16 + 4 * index as u32)) & 0xF;
    let r: u8 = (e | (c << 4u64)) as u8;
    proof {
        let i: u64 = index as u64;
        assert(r == decode_slot_flags(dr7, i)) by (bit_vector)
            requires
                i == index as u64,
                i < 4,
                e == (dr7 >> (2 * index as u32)) & 3,
                c == (dr7 >> (16 + 4 * index as u32)) & 0xF,
                r == (e | (c << 4u64)) as u8,
        ;
    }
    r
}

proof fn lemma_decode_of_fields(x: u64, f: u8, i: u64)
    by (bit_vector)
    requires
        i < 4,
        f & !0xF3u8 == 0,
        dr7_enable_field(x, i) == bp_enable_bits(f),
        dr7_cond_field(x, i) == bp_cond_bits(f),
    ensures
        decode_slot_flags(x, i) == f,
{
}

/// Round trip: pushing a table and then decoding an occupied slot's enable
/// and condition bits back out recovers that slot's flags byte exactly.
pub proof fn lemma_codec_round_trip(dr7: u64, t: Seq<Option<Breakpoint>>, i: u64)
    requires
        t.len() == 4,
        i < 4,
        t[i as int] is Some,
        Breakpoint::valid_flags(t[i as int]->0.flags),
    ensures
        decode_slot_flags(dr7_apply_table(dr7, t), i) == t[i as int]->0.flags,
{
    lemma_apply_table_fields(dr7, t, i);
    lemma_decode_of_fields(dr7_apply_table(dr7, t), t[i as int]->0.flags, i);
}

/// Clearing: pushing the cleared table leaves every slot's enable bits zero
/// (and its condition bits zero), whatever register value it is applied to.
pub proof fn lemma_cleared_table_disables(dr7: u64, i: u64)
    requires
        i < 4,
    ensures
        dr7_enable_field(dr7_apply_table(dr7, cleared_slots()), i) == 0,
        dr7_cond_field(dr7_apply_table(dr7, cleared_slots()), i) == 0,
{
    lemma_apply_table_fields(dr7, cleared_slots(), i);
    assert(bp_enable_bits(0u8) == 0 && bp_cond_bits(0u8) == 0) by (bit_vector);
}

/// Refresh reproduces a slot's encoding: two pushes of tables that agree on
/// an occupied slot write the identical enable and condition encoding for
/// that slot, whatever register values they start from.
pub proof fn lemma_refresh_reproduces_slot(
    dr7_a: u64,
    dr7_b: u64,
    ta: Seq<Option<Breakpoint>>,
    tb: Seq<Option<Breakpoint>>,
    i: u64,
)
    requires
        ta.len() == 4,
        tb.len() == 4,
        i < 4,
        ta[i as int] == tb[i as int],
        ta[i as int] is Some,
    ensures
        dr7_enable_field(dr7_apply_table(dr7_a, ta), i) == dr7_enable_field(
            dr7_apply_table(dr7_b, tb),
            i,
        ),
        dr7_cond_field(dr7_apply_table(dr7_a, ta), i) == dr7_cond_field(
            dr7_apply_table(dr7_b, tb),
            i,
        ),
{
    lemma_apply_table_fields(dr7_a, ta, i);
    lemma_apply_table_fields(dr7_b, tb, i);
}

} // verus!
