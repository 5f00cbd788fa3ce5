//! The public entry surface: the reference-counted lifecycle and the
//! translation of each controller-facing entry point into a worker
//! submission, with its input validation.
//!
//! Every entry decides from plain values; the runtime around the library
//! holds the process-wide state (the lock on the worker handle, the atomic
//! reference count and callback cell) and performs the submission.

use vstd::prelude::*;
use crate::breakpoint::BREAKPOINT_FLAGS_MASK;
use crate::breakpoint::Breakpoint;
use crate::worker::IpfdMessage;
use crate::worker::IpfdServer;

verus! {

/// Status every public entry point returns across the call boundary.
#[derive(Clone, Copy, Debug, PartialEq, Eq, Structural)]
pub enum Status {
    /// The operation was accepted (or, for the barrier, has completed).
    Success,
    /// The worker is not running: no initialize yet, or already torn down.
    NotInitialized,
    /// An argument was rejected at the boundary; nothing was submitted.
    InvalidArgument,
    /// A generic failure, e.g. of the barrier's synchronization object.
    Failure,
}

impl Status {
    /// The result code each status travels as across the C boundary.
    pub fn result_code(self) -> (r: i32)
        ensures
            self == Status::Success ==> r == 0,
            self == Status::NotInitialized ==> r == 0x8007139Fu32 as i32,
            self == Status::InvalidArgument ==> r == 0x80070057u32 as i32,
            self == Status::Failure ==> r == 0x80004005u32 as i32,
    {
        match self {
            Status::Success => 0,
            Status::NotInitialized => 0x8007139Fu32 as i32,
            Status::InvalidArgument => 0x80070057u32 as i32,
            Status::Failure => 0x80004005u32 as i32,
        }
    }
}

/// Whether the worker runs at a given reference count.
pub open spec fn worker_running(count: nat) -> bool {
    count > 0
}

/// The initialize call that finds this count starts the worker.
pub open spec fn starts_worker(count_before: nat) -> bool {
    count_before == 0
}

/// The terminate call that finds this count stops the worker.
pub open spec fn stops_worker(count_before: nat) -> bool {
    count_before == 1
}

/// The process-wide reference-counted lifecycle: the first initialize starts
/// the command worker, the matching final terminate stops it, intermediate
/// calls only adjust the count.
pub struct Lifecycle {
    pub count: usize,
}

impl Lifecycle {
    /// Before any initialize: count zero, worker stopped.
    pub fn new() -> (s: Self)
        ensures
            s.count == 0,
            !worker_running(s.count as nat),
    {
        Lifecycle { count: 0 }
    }

    /// Increment the reference count; the first call asks the runtime to
    /// start the worker.  Overflow of the count is a fatal programming
    /// error, ruled out here by the precondition.
    pub fn initialize(&mut self) -> (start: bool)
        requires
            old(self).count < usize::MAX,
        ensures
            final(self).count == old(self).count + 1,
            start == starts_worker(old(self).count as nat),
            worker_running(final(self).count as nat),
    {
        let start = self.count == 0;
        self.count = self.count + 1;
        start
    }

    /// Decrement the reference count; the call that brings it to zero asks
    /// the runtime to stop the worker (drain the queue, run the shutdown
    /// sequence, join).  A terminate with no matching initialize would
    /// underflow the count: that is a fatal programming error, ruled out
    /// here by the precondition.
    pub fn terminate(&mut self) -> (stop: bool)
        requires
            old(self).count > 0,
        ensures
            final(self).count == old(self).count - 1,
            stop == stops_worker(old(self).count as nat),
            worker_running(final(self).count as nat) <==> old(self).count > 1,
    {
        let stop = self.count == 1;
        self.count = self.count - 1;
        stop
    }

    /// Whether the worker is currently running.
    pub fn is_running(&self) -> (r: bool)
        ensures
            r == worker_running(self.count as nat),
    {
        self.count > 0
    }
}

/// Reference counting: from the stopped state, two initialize calls and one
/// terminate leave the worker running; the second terminate stops it.  A
/// terminate with the count already at zero is a fatal error, which the
/// precondition of `Lifecycle::terminate` rules out of verified code.
pub proof fn lemma_reference_count_lifecycle()
    ensures
        starts_worker(0),
        worker_running((0 + 1) as nat),
        !starts_worker((0 + 1) as nat),
        worker_running((0 + 1 + 1) as nat),
        !stops_worker((0 + 1 + 1) as nat),
        worker_running((0 + 1 + 1 - 1) as nat),
        stops_worker((0 + 1 + 1 - 1) as nat),
        !worker_running((0 + 1 + 1 - 1 - 1) as nat),
{
}

/// Route a command to the worker: accepted, and handed on for submission,
/// exactly while the worker runs; otherwise nothing is submitted and the
/// caller learns the component is not initialized.
pub fn send(running: bool, message: IpfdMessage) -> (r: (Status, Option<IpfdMessage>))
    ensures
        running ==> r == (Status::Success, Some(message)),
        !running ==> r == (Status::NotInitialized, None::<IpfdMessage>),
{
    if running {
        (Status::Success, Some(message))
    } else {
        (Status::NotInitialized, None)
    }
}

/// Arm one breakpoint slot.  The index must be 0..3 and the flags must not
/// carry reserved bits; invalid input is rejected with "invalid argument"
/// before anything is submitted, so it never reaches the worker and touches
/// no thread.
pub fn ipfd_set_breakpoint(running: bool, index: u8, address: usize, flags: u8) -> (r: (
    Status,
    Option<IpfdMessage>,
))
    ensures
        !(index <= 3 && Breakpoint::valid_flags(flags)) ==> r == (
            Status::InvalidArgument,
            None::<IpfdMessage>,
        ),
        index <= 3 && Breakpoint::valid_flags(flags) && running ==> r == (
            Status::Success,
            Some(IpfdMessage::SetBreakpoint { index, breakpoint: Breakpoint { flags, address } }),
        ),
        index <= 3 && Breakpoint::valid_flags(flags) && !running ==> r == (
            Status::NotInitialized,
            None::<IpfdMessage>,
        ),
        r.1 matches Some(m) ==> IpfdServer::message_wf(m),
{
    if index > 3 || (flags & !BREAKPOINT_FLAGS_MASK) != 0 {
        return (Status::InvalidArgument, None);
    }
    send(running, IpfdMessage::SetBreakpoint { index, breakpoint: Breakpoint { flags, address } })
}

/// Re-apply the full table to every thread.
pub fn ipfd_refresh_all_breakpoints(running: bool) -> (r: (Status, Option<IpfdMessage>))
    ensures
        running ==> r == (Status::Success, Some(IpfdMessage::RefreshAllBreakpoints)),
        !running ==> r == (Status::NotInitialized, None::<IpfdMessage>),
{
    send(running, IpfdMessage::RefreshAllBreakpoints)
}

/// Disable every slot on every thread.
pub fn ipfd_clear_all_breakpoints(running: bool) -> (r: (Status, Option<IpfdMessage>))
    ensures
        running ==> r == (Status::Success, Some(IpfdMessage::ClearAllBreakpoints)),
        !running ==> r == (Status::NotInitialized, None::<IpfdMessage>),
{
    send(running, IpfdMessage::ClearAllBreakpoints)
}

/// Copy bytes within the process's own address space.  The addresses are
/// trusted (the component runs with full privilege inside the process it
/// instruments): no bounds check stands at this boundary.
pub fn ipfd_memmove(running: bool, source: usize, destination: usize, size: usize) -> (r: (
    Status,
    Option<IpfdMessage>,
))
    ensures
        running ==> r == (
            Status::Success,
            Some(IpfdMessage::MemoryCopy { source, destination, size }),
        ),
        !running ==> r == (Status::NotInitialized, None::<IpfdMessage>),
{
    send(running, IpfdMessage::MemoryCopy { source, destination, size })
}

/// Signal an externally owned synchronization object from the worker.
pub fn ipfd_set_event(running: bool, hevent: usize) -> (r: (Status, Option<IpfdMessage>))
    ensures
        running ==> r == (Status::Success, Some(IpfdMessage::SetEvent { hevent })),
        !running ==> r == (Status::NotInitialized, None::<IpfdMessage>),
{
    send(running, IpfdMessage::SetEvent { hevent })
}

/// The submission half of the synchronous barrier: the runtime creates a
/// fresh event object and submits a signal command for it; every command
/// submitted earlier completes before the worker reaches it.
pub fn ipfd_sync_submit(running: bool, hevent: usize) -> (r: (Status, Option<IpfdMessage>))
    ensures
        running ==> r == (Status::Success, Some(IpfdMessage::SetEvent { hevent })),
        !running ==> r == (Status::NotInitialized, None::<IpfdMessage>),
{
    send(running, IpfdMessage::SetEvent { hevent })
}

/// The completion half of the barrier: a failed submission propagates as it
/// is; otherwise the barrier succeeds exactly when the wait ended with the
/// object signaled.
pub fn ipfd_sync_result(submit: Status, signaled: bool) -> (r: Status)
    ensures
        submit != Status::Success ==> r == submit,
        submit == Status::Success && signaled ==> r == Status::Success,
        submit == Status::Success && !signaled ==> r == Status::Failure,
{
    match submit {
        Status::Success => {
            if signaled {
                Status::Success
            } else {
                Status::Failure
            }
        },
        _ => submit,
    }
}

/// Reason code the host's thread-lifecycle mechanism passes when a new
/// thread starts in the process.
pub const THREAD_ATTACH_REASON: u32 = 2;

/// The thread-creation notification hook: hardware debug registers are
/// per-thread state and are not inherited, so a newly created thread's id is
/// submitted for a single-thread refresh.  Other lifecycle reasons submit
/// nothing.
pub fn thread_notification_message(call_reason: u32, thread_id: u32) -> (r: Option<IpfdMessage>)
    ensures
        call_reason == THREAD_ATTACH_REASON ==> r == Some(
            IpfdMessage::ThreadRefreshBreakpoints { thread_id },
        ),
        call_reason != THREAD_ATTACH_REASON ==> r is None,
{
    if call_reason == THREAD_ATTACH_REASON {
        Some(IpfdMessage::ThreadRefreshBreakpoints { thread_id })
    } else {
        None
    }
}

} // verus!
