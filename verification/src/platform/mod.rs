//! Interfaces to the hardware and driver collaborators the kernel consumes.
//!
//! The kernel never implements these itself (except for reference models on
//! the unit type): a board supplies a chip, a memory-protection unit, a tick
//! timer, and a syscall driver surface. The traits carry no promises about
//! what the collaborators return; the kernel's decisions are verified for
//! every value they can hand back.

pub mod mpu;
pub mod systick;

use vstd::prelude::*;

use crate::error::{ErrorCode, ReturnCode};
use crate::mem::ReadWriteAppSlice;
use crate::task::{AppId, ContextSwitchReason, FunctionCall, IpcUpcallType};

verus! {

/// The chip the kernel runs on: interrupt servicing and the architecture's
/// userspace–kernel boundary (context switching and syscall plumbing).
pub trait Chip {
    /// Run the bottom halves of any interrupts whose top half has flagged
    /// work.
    fn service_pending_interrupts(&mut self);

    /// Whether any interrupt is waiting for bottom-half servicing.
    fn has_pending_interrupts(&mut self) -> bool;

    /// The smallest application-accessible span the context-switch
    /// implementation needs to enter a process at all.
    fn initial_process_app_brk_size(&mut self) -> usize;

    /// Prepare the architecture-specific state of a new or restarted
    /// process whose accessible memory is `[mem_start, app_break)`.
    fn initialize_process(&mut self, app: AppId, mem_start: usize, app_break: usize) -> Result<
        (),
        (),
    >;

    /// Write the return value the process sees when it resumes after a
    /// syscall. Fails when the process's stack is no longer accessible.
    fn set_syscall_return_value(
        &mut self,
        app: AppId,
        mem_start: usize,
        app_break: usize,
        value: ReturnCode,
    ) -> Result<(), ()>;

    /// Arrange for the process to execute the given function when it next
    /// runs. Fails when there is no room for the call frame.
    fn set_process_function(
        &mut self,
        app: AppId,
        mem_start: usize,
        app_break: usize,
        callback: FunctionCall,
    ) -> Result<(), ()>;

    /// Switch to the process and run it until control returns to the
    /// kernel. Returns why it returned — `None` marks an internal switch
    /// failure — and the process stack pointer if the boundary reports one.
    fn switch_to_process(&mut self, app: AppId, mem_start: usize, app_break: usize) -> (
        Option<ContextSwitchReason>,
        Option<usize>,
    );
}

/// The board's syscall driver surface: each system call a process makes is
/// routed here by driver number.
pub trait Platform {
    /// Register (or with a null pointer, remove) an upcall under a driver's
    /// subscription slot.
    fn subscribe(
        &mut self,
        driver_number: usize,
        subdriver_number: usize,
        upcall_ptr: usize,
        appdata: usize,
        app: AppId,
    ) -> ReturnCode;

    /// Invoke a driver-specific action.
    fn command(
        &mut self,
        driver_number: usize,
        subdriver_number: usize,
        arg0: usize,
        arg1: usize,
        app: AppId,
    ) -> ReturnCode;

    /// Offer a driver a validated slice of process memory, or the error the
    /// validation produced.
    fn allow(
        &mut self,
        app: AppId,
        driver_number: usize,
        subdriver_number: usize,
        slice: Result<ReadWriteAppSlice, ErrorCode>,
    ) -> ReturnCode;
}

/// The inter-process-communication mechanism consulted when an IPC task is
/// dequeued for a process.
pub trait Ipc {
    /// Schedule the IPC upcall of `schedulee` toward `other`.
    fn schedule_callback(&mut self, schedulee: AppId, other: AppId, upcall_type: IpcUpcallType);
}

/// An IPC mechanism for boards without inter-process communication: queued
/// IPC tasks are dropped.
pub struct NoIpc {}

impl Ipc for NoIpc {
    fn schedule_callback(&mut self, schedulee: AppId, other: AppId, upcall_type: IpcUpcallType) {
    }
}

} // verus!
