//! Process-isolation and scheduling core of an embedded operating-system
//! kernel, modelled and verified over plain address arithmetic.
//!
//! The library owns the lifecycle of isolated userspace applications loaded
//! from a flash image: it parses the on-flash binary headers, carves each
//! process's RAM window into kernel-owned and application-owned sub-regions
//! under a strict non-overlap invariant, runs the process state machine with
//! fault and restart semantics, and decides which process runs next under one
//! of four scheduling policies (round-robin, multilevel feedback queue, strict
//! priority, deadline-aware).
//!
//! Hardware collaborators (the memory-protection unit, the context-switch
//! boundary, timers, and syscall drivers) are consumed through narrow trait
//! interfaces; the kernel's own decisions are verified for every value those
//! collaborators can return.

pub mod error;
pub mod header;
pub mod hil;
pub mod mem;
pub mod network_capabilities;
pub mod platform;
pub mod process;
pub mod sched;
pub mod task;

use vstd::prelude::*;

verus! {

} // verus!
