//! In-process hardware-breakpoint service.
//!
//! A controller arms and disarms up to four CPU hardware breakpoints across
//! every thread of the current process.  All mutation is serialized through a
//! single command worker that owns the canonical breakpoint table; a
//! process-wide trap handler decides, on each hardware trap, whether the trap
//! belongs to this component and what to do with it.
//!
//! This crate holds the verified core: the debug-register codec, the
//! breakpoint table and the worker's command transitions, the trap-dispatch
//! decisions, the thread-enumeration bookkeeping, the byte-copy routine, and
//! the reference-counted lifecycle.  The operating-system shell around it
//! (vectored-exception-handler installation, thread suspension, raw memory
//! access, event objects) lives outside the verified library and hands plain
//! values in and out.

pub mod breakpoint;
pub mod codec;
pub mod dispatcher;
pub mod enumerate;
pub mod memory;
pub mod surface;
pub mod worker;

pub use breakpoint::Breakpoint;
pub use breakpoint::BreakpointTable;
