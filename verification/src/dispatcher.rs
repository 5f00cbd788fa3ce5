//! The exception dispatcher's decision logic: on every delivered hardware
//! trap it decides, from the exception code, the faulting region and the
//! callback registration, whether the trap is declined, resumed
//! transparently, or forwarded to the controller callback; and it performs
//! the context post-processing of a resumed trap.
//!
//! The handler itself runs on the faulting thread with no locking available:
//! the runtime reads the shared callback cell with a single atomic load and
//! hands the plain values in.

use vstd::prelude::*;
use crate::codec::DebugContext;

verus! {

/// Exception code of the hardware-breakpoint trap.
pub const EXCEPTION_BREAKPOINT_CODE: u32 = 0x8000_0003;

/// Exception code of the single-step trap.
pub const EXCEPTION_SINGLE_STEP_CODE: u32 = 0x8000_0004;

/// Region type of memory backed by a loaded executable image.
pub const MEM_IMAGE_TYPE: u32 = 0x0100_0000;

/// Disposition that resumes execution of the faulting thread.
pub const CONTINUE_EXECUTION: i32 = -1;

/// Disposition that passes the trap to the next handler in the chain.
pub const CONTINUE_SEARCH: i32 = 0;

/// What the dispatcher decides to do with one delivered trap.
#[derive(Clone, Copy, Debug, PartialEq, Eq, Structural)]
pub enum TrapRoute {
    /// Not a breakpoint or single-step trap: pass it on to the next handler.
    Decline,
    /// Resume execution transparently, without consulting the callback.
    Resume,
    /// Forward the trap to the registered controller callback and use the
    /// disposition it returns.
    Forward,
}

/// The two exception codes this component cares about.
pub open spec fn code_is_ours(code: u32) -> bool {
    code == EXCEPTION_BREAKPOINT_CODE || code == EXCEPTION_SINGLE_STEP_CODE
}

/// The dispatcher's decision.  `in_dynamic_code` is what the region query
/// said of the faulting instruction's address: `None` when the region could
/// not be queried at all.  A trap from dynamic (non-image) code, or from an
/// unqueryable region, is never forwarded and never swallowed incorrectly:
/// it is always resumed transparently.
pub open spec fn route_trap_spec(
    code: u32,
    in_dynamic_code: Option<bool>,
    callback_registered: bool,
) -> TrapRoute {
    if !code_is_ours(code) {
        TrapRoute::Decline
    } else if in_dynamic_code is None || in_dynamic_code == Some(true) {
        TrapRoute::Resume
    } else if callback_registered {
        TrapRoute::Forward
    } else {
        TrapRoute::Resume
    }
}

/// Decide what to do with one delivered trap.
pub fn route_trap(code: u32, in_dynamic_code: Option<bool>, callback_registered: bool) -> (r:
    TrapRoute)
    ensures
        r == route_trap_spec(code, in_dynamic_code, callback_registered),
{
    if code != EXCEPTION_BREAKPOINT_CODE && code != EXCEPTION_SINGLE_STEP_CODE {
        TrapRoute::Decline
    } else {
        match in_dynamic_code {
            None => TrapRoute::Resume,
            Some(true) => TrapRoute::Resume,
            Some(false) => {
                if callback_registered {
                    TrapRoute::Forward
                } else {
                    TrapRoute::Resume
                }
            },
        }
    }
}

/// Classify the region the faulting instruction lies in, from the result of
/// the region query: `None` when the query failed, otherwise whether the
/// region is outside any loaded executable image (dynamically generated).
pub fn classify_region(query_succeeded: bool, region_type: u32) -> (r: Option<bool>)
    ensures
        r is Some <==> query_succeeded,
        query_succeeded ==> r == Some(region_type != MEM_IMAGE_TYPE),
{
    if query_succeeded {
        Some(region_type != MEM_IMAGE_TYPE)
    } else {
        None
    }
}

/// Read the registered-callback cell: it holds a raw address, zero meaning
/// "unset, do not forward".  The last write wins; the dispatcher reads the
/// cell with one atomic load on every trap.
pub fn callback_from_raw(raw: usize) -> (r: Option<usize>)
    ensures
        raw != 0 ==> r == Some(raw),
        raw == 0 ==> r is None,
{
    if raw != 0 {
        Some(raw)
    } else {
        None
    }
}

/// Whether the context post-processing runs: exactly when the final
/// disposition, by default or by callback decision, resumes execution.
pub fn should_acknowledge(disposition: i32) -> (r: bool)
    ensures
        r <==> disposition == CONTINUE_EXECUTION,
{
    disposition == CONTINUE_EXECUTION
}

/// Post-processing of a trap that will be resumed: clear the low four status
/// bits of the debug-status register (acknowledging the trap) and set the
/// CPU's resume/trap flag (bit 12 of the flags register), so single-step
/// semantics stay consistent for re-arming.  Nothing else in the context is
/// touched.
pub fn resume_acknowledge(context: &mut DebugContext)
    ensures
        final(context).dr6 == old(context).dr6 & !0xFu64,
        final(context).eflags == old(context).eflags | 0x1000u32,
        final(context).dr0 == old(context).dr0,
        final(context).dr1 == old(context).dr1,
        final(context).dr2 == old(context).dr2,
        final(context).dr3 == old(context).dr3,
        final(context).dr7 == old(context).dr7,
        final(context).rip == old(context).rip,
{
    context.dr6 = context.dr6 & !0xFu64;
    context.eflags = context.eflags | 0x1000u32;
}

/// A trap whose faulting address lies in dynamically generated (non-image)
/// memory, or in a region that cannot be queried at all, always results in a
/// transparent resume, whether or not a controller callback is registered.
pub proof fn lemma_dynamic_code_always_resumes(code: u32, callback_registered: bool)
    requires
        code_is_ours(code),
    ensures
        route_trap_spec(code, Some(true), callback_registered) == TrapRoute::Resume,
        route_trap_spec(code, None, callback_registered) == TrapRoute::Resume,
{
}

} // verus!
