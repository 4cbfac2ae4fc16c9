//! Identifiers, queued work items, and the syscall vocabulary shared by the
//! process control block, the kernel dispatcher, and the schedulers.

use vstd::prelude::*;

verus! {

/// Identifies a process: the slot it occupies in the process array plus a
/// generation counter.
///
/// The generation counter (`identifier`) increases every time a process is
/// created or restarted, so an `AppId` held from before a restart no longer
/// matches the slot's current process and operations keyed on it fail cleanly.
#[derive(Copy, Clone, Debug, PartialEq, Eq, Structural)]
pub struct AppId {
    /// Monotonically increasing generation counter.
    pub identifier: usize,
    /// Index of the process in the process array.
    pub index: usize,
}

impl AppId {
    /// Build the identifier for the process in slot `index` of generation
    /// `identifier`.
    pub fn new(identifier: usize, index: usize) -> (r: AppId)
        ensures
            r == (AppId { identifier, index }),
    {
        AppId { identifier, index }
    }

    /// The slot index of this process in the process array.
    pub fn idx(&self) -> (r: usize)
        ensures
            r == self.index,
    {
        self.index
    }
}

/// Names one upcall a process subscribed to: the driver it belongs to and the
/// subscription slot within that driver.
#[derive(Copy, Clone, Debug, PartialEq, Eq, Structural)]
pub struct UpcallId {
    /// The driver number the subscription was made under.
    pub driver_num: usize,
    /// The subscription slot within the driver.
    pub subscribe_num: usize,
}

/// Whether a queued function call was scheduled by the kernel itself or by a
/// driver on behalf of a subscription.
#[derive(Copy, Clone, Debug, PartialEq, Eq, Structural)]
pub enum FunctionCallSource {
    /// The call comes directly from the kernel, such as a process entry point.
    Kernel,
    /// The call comes from a driver upcall with the given identity.
    Driver(UpcallId),
}

/// A function call to deliver into a process: a program counter and up to
/// four word-sized arguments, tagged with where it came from so it can be
/// unscheduled when the process unsubscribes.
#[derive(Copy, Clone, Debug, PartialEq, Eq, Structural)]
pub struct FunctionCall {
    /// Who scheduled this call.
    pub source: FunctionCallSource,
    /// First argument word.
    pub argument0: usize,
    /// Second argument word.
    pub argument1: usize,
    /// Third argument word.
    pub argument2: usize,
    /// Fourth argument word.
    pub argument3: usize,
    /// Program counter the process should execute at.
    pub pc: usize,
}

/// The two kinds of inter-process-communication upcalls.
#[derive(Copy, Clone, Debug, PartialEq, Eq, Structural)]
pub enum IpcUpcallType {
    /// Notify the service side of an IPC connection.
    Service,
    /// Notify the client side of an IPC connection.
    Client,
}

/// A queued unit of future work for a process.
#[derive(Copy, Clone, Debug, PartialEq, Eq, Structural)]
pub enum Task {
    /// A function in the process to execute, generally an upcall.
    FunctionCall(FunctionCall),
    /// An inter-process-communication request that needs additional setup to
    /// configure memory access: the peer process and the side to notify.
    IPC(AppId, IpcUpcallType),
}

/// The system calls a process can make, with their arguments.
#[derive(Copy, Clone, Debug, PartialEq, Eq, Structural)]
pub enum Syscall {
    /// Give up the processor until an upcall is ready.
    YIELD,
    /// Memory operations: break adjustment, address queries, and debug
    /// pointers. `operand` selects the operation, `arg0` is its argument.
    MEMOP { operand: u32, arg0: usize },
    /// Register an upcall under a driver's subscription slot.
    SUBSCRIBE {
        driver_number: usize,
        subdriver_number: usize,
        upcall_ptr: usize,
        appdata: usize,
    },
    /// Invoke a driver-specific action.
    COMMAND { driver_number: usize, subdriver_number: usize, arg0: usize, arg1: usize },
    /// Share a buffer of process memory with a driver.
    ALLOW {
        driver_number: usize,
        subdriver_number: usize,
        allow_address: usize,
        allow_size: usize,
    },
}

/// Why a context switch into a process returned control to the kernel.
#[derive(Copy, Clone, Debug, PartialEq, Eq, Structural)]
pub enum ContextSwitchReason {
    /// The process made a system call.
    SyscallFired { syscall: Syscall },
    /// The process faulted, for example through an illegal memory access.
    Fault,
    /// The process used up the timeslice it was granted.
    TimesliceExpired,
    /// A hardware interrupt arrived while the process was running.
    Interrupted,
}

} // verus!
