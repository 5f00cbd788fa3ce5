//! The command worker: the single execution context that owns the canonical
//! breakpoint table and executes one command at a time, in submission order.

use vstd::prelude::*;
use crate::breakpoint::Breakpoint;
use crate::breakpoint::BreakpointTable;
use crate::breakpoint::cleared_slots;
use crate::breakpoint::empty_slots;
use crate::codec::dr7_apply_table;
use crate::codec::dr7_cond_field;
use crate::codec::dr7_enable_field;
use crate::codec::lemma_refresh_reproduces_slot;

verus! {

/// A command submitted to the worker's ordered queue.
#[derive(Clone, Copy, Debug)]
pub enum IpfdMessage {
    /// Store a breakpoint in one table slot and push that slot to every thread.
    SetBreakpoint { index: u8, breakpoint: Breakpoint },
    /// Re-apply the full table to every thread.
    RefreshAllBreakpoints,
    /// Reset the table, disabling all four slots, and push that to every thread.
    ClearAllBreakpoints,
    /// Copy bytes between two addresses of the process's own address space.
    MemoryCopy { source: usize, destination: usize, size: usize },
    /// Re-apply the table to exactly one, typically newly created, thread.
    ThreadRefreshBreakpoints { thread_id: u32 },
    /// Signal an externally supplied synchronization object.
    SetEvent { hevent: usize },
}

/// The outside effect one command asks the surrounding runtime for, once the
/// worker has updated its table.  The runtime performs it on the worker's
/// thread, after which the command is complete.
#[derive(Clone, Copy, Debug)]
pub enum WorkerAction {
    /// Push the carried table to every thread of the process, best effort
    /// per thread: a thread that disappears or resists is skipped.
    PushAllThreads { table: BreakpointTable },
    /// Push the carried table to exactly one thread; a no-op if that thread
    /// is the worker itself.
    PushOneThread { thread_id: u32, table: BreakpointTable },
    /// Copy `size` bytes from `source` to `destination`.  The addresses are
    /// trusted; bounds are the caller's responsibility.
    CopyMemory { source: usize, destination: usize, size: usize },
    /// Signal the synchronization object behind `hevent`; failure propagates
    /// to the submitter.
    Signal { hevent: usize },
}

/// Interface of a server driven by a message-loop thread: the loop hands it
/// one message at a time, in submission order, with no concurrent execution
/// of two messages.  Implemented by the runtime that owns the loop.
pub trait MessageServer<Message> {
    fn handle(&mut self, message: Message);
}

/// The worker's server state: the canonical four-slot breakpoint table, the
/// single source of truth for what should be armed on every thread.  Owned
/// and mutated exclusively by the worker.
pub struct IpfdServer {
    pub breakpoints: BreakpointTable,
}

impl IpfdServer {
    /// A message the public boundary lets through to the worker: slot index
    /// in range, no reserved flag bits set.
    pub open spec fn message_wf(message: IpfdMessage) -> bool {
        message matches IpfdMessage::SetBreakpoint { index, breakpoint } ==> index <= 3
            && Breakpoint::valid_flags(breakpoint.flags)
    }

    /// A fresh server: the table starts empty.  The runtime that starts the
    /// worker also names its thread and installs the exception dispatcher.
    pub fn new() -> (s: Self)
        ensures
            s.breakpoints@ == empty_slots(),
            s.breakpoints.wf(),
    {
        IpfdServer { breakpoints: BreakpointTable::empty() }
    }

    /// Execute one command: update the canonical table as the command says
    /// and return the outside effect it asks for.
    pub fn step(&mut self, message: IpfdMessage) -> (action: WorkerAction)
        requires
            Self::message_wf(message),
            old(self).breakpoints.wf(),
        ensures
            final(self).breakpoints.wf(),
            match message {
                IpfdMessage::SetBreakpoint { index, breakpoint } => final(self).breakpoints@ == old(
                    self,
                ).breakpoints@.update(index as int, Some(breakpoint)) && (action matches
                WorkerAction::PushAllThreads { table } && table@ == empty_slots().update(
                    index as int,
                    Some(breakpoint),
                )),
                IpfdMessage::RefreshAllBreakpoints => final(self).breakpoints == old(
                    self,
                ).breakpoints && (action matches WorkerAction::PushAllThreads { table } && table@
                    == old(self).breakpoints@),
                IpfdMessage::ClearAllBreakpoints => final(self).breakpoints@ == cleared_slots() && (
                action matches WorkerAction::PushAllThreads { table } && table@ == cleared_slots()),
                IpfdMessage::MemoryCopy { source, destination, size } => *final(self) == *old(self)
                    && action == (WorkerAction::CopyMemory { source, destination, size }),
                IpfdMessage::ThreadRefreshBreakpoints { thread_id } => *final(self) == *old(self) && (
                action matches WorkerAction::PushOneThread { thread_id: tid, table } && tid
                    == thread_id && table@ == old(self).breakpoints@),
                IpfdMessage::SetEvent { hevent } => *final(self) == *old(self) && action == (
                WorkerAction::Signal { hevent }),
            },
    {
        match message {
            IpfdMessage::SetBreakpoint { index, breakpoint } => {
                self.breakpoints.set_slot(index, breakpoint);
                let mut push = BreakpointTable::empty();
                push.set_slot(index, breakpoint);
                WorkerAction::PushAllThreads { table: push }
            },
            IpfdMessage::RefreshAllBreakpoints => {
                WorkerAction::PushAllThreads { table: self.breakpoints }
            },
            IpfdMessage::ClearAllBreakpoints => {
                let cleared = BreakpointTable::cleared();
                self.breakpoints = cleared;
                WorkerAction::PushAllThreads { table: cleared }
            },
            IpfdMessage::MemoryCopy { source, destination, size } => {
                WorkerAction::CopyMemory { source, destination, size }
            },
            IpfdMessage::ThreadRefreshBreakpoints { thread_id } => {
                WorkerAction::PushOneThread { thread_id, table: self.breakpoints }
            },
            IpfdMessage::SetEvent { hevent } => {
                WorkerAction::Signal { hevent }
            },
        }
    }

    /// Worker shutdown: reset the table and push it one final time, so that
    /// breakpoints are always cleared from the process before the component
    /// is considered torn down.
    pub fn shutdown(&mut self) -> (action: WorkerAction)
        ensures
            final(self).breakpoints@ == cleared_slots(),
            final(self).breakpoints.wf(),
            action matches WorkerAction::PushAllThreads { table } && table@ == cleared_slots(),
    {
        let cleared = BreakpointTable::cleared();
        self.breakpoints = cleared;
        WorkerAction::PushAllThreads { table: cleared }
    }
}

/// Setting a breakpoint stores the submitted value in its slot, and a later
/// whole-table refresh writes the identical enable and condition encoding
/// for that slot as the set itself pushed, whatever register values the two
/// pushes found on a thread (idempotence of refresh).
pub proof fn lemma_set_breakpoint_then_refresh(
    t: Seq<Option<Breakpoint>>,
    index: u8,
    bp: Breakpoint,
    dr7_set: u64,
    dr7_refresh: u64,
)
    requires
        t.len() == 4,
        index <= 3,
    ensures
        ({
            let stored = t.update(index as int, Some(bp));
            let pushed = empty_slots().update(index as int, Some(bp));
            stored[index as int] == Some(bp) && dr7_enable_field(
                dr7_apply_table(dr7_refresh, stored),
                index as u64,
            ) == dr7_enable_field(dr7_apply_table(dr7_set, pushed), index as u64)
                && dr7_cond_field(dr7_apply_table(dr7_refresh, stored), index as u64)
                == dr7_cond_field(dr7_apply_table(dr7_set, pushed), index as u64)
        }),
{
    let stored = t.update(index as int, Some(bp));
    let pushed = empty_slots().update(index as int, Some(bp));
    lemma_refresh_reproduces_slot(dr7_refresh, dr7_set, stored, pushed, index as u64);
}

} // verus!
