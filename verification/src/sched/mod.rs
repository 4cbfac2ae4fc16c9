//! The central kernel object and the scheduler implementations.
//!
//! [`Kernel`] owns the global bookkeeping every scheduler shares: the
//! outstanding-work counter, the grant-type counter frozen before processes
//! load, the process-identifier generation counter, and the halted flag that
//! models a fatal board condition. The scheduler submodules each implement
//! one policy for picking the next runnable process.

pub mod mlfq;
pub mod priority;
pub mod round_robin;
pub mod secure_time;

use vstd::prelude::*;

use crate::error::ReturnCode;
use crate::platform::mpu::Mpu;
use crate::platform::systick::{Alarm, SysTick};
use crate::platform::{Chip, Ipc, Platform};
use crate::process::{
    spec_fault_outcome,
    spec_post_fault_state,
    ProcessDebug,
    spec_task_matches_upcall,
    spec_usize_inc,
    spec_work_after_transition,
    spec_yield_transition,
    Process,
    ProcessSlots,
    ProcessType,
    State,
};
use crate::task::{AppId, ContextSwitchReason, Syscall, Task, UpcallId};

verus! {

/// Handle to one registered grant type, keyed by the index the kernel
/// assigned when the grant was created.
#[derive(Copy, Clone, Debug, PartialEq, Eq, Structural)]
pub struct Grant {
    /// Index of this grant type in every process's grant-pointer table.
    pub grant_num: usize,
}

/// The execution contract every scheduling algorithm shares: pick the next
/// runnable unit of work, execute it for a bounded quantum, and react to why
/// it stopped.
pub trait Scheduler {
    /// The scheduler's own bookkeeping invariant.
    spec fn sched_wf(&self) -> bool;

    /// Run the scheduling loop for at most `iterations` decisions, returning
    /// early when an interrupt awaits servicing, when every process is
    /// blocked, or when the board has halted. The board's outer loop
    /// services interrupts, sleeps when there is nothing to do, and calls
    /// back in.
    fn kernel_loop<P: Platform, C: Chip, M: Mpu, S: SysTick, A: Alarm, I: Ipc>(
        &mut self,
        kernel: &mut Kernel,
        slots: &mut ProcessSlots,
        platform: &mut P,
        chip: &mut C,
        mpu: &mut M,
        systick: &mut S,
        alarm: &mut A,
        ipc: &mut I,
        iterations: usize,
    )
        requires
            old(slots).wf(),
            old(self).sched_wf(),
        ensures
            final(slots).wf(),
            final(slots)@.len() == old(slots)@.len(),
            final(self).sched_wf(),
    ;
}

/// A collection that process slots can be counted in.
pub trait ProcessContainer {
    /// How many process slots the collection provides.
    fn len(&self) -> usize;

    /// How many slots currently hold a process.
    fn active(&self) -> usize;
}

/// Main object for the kernel. Each board creates one.
pub struct Kernel {
    /// How many "to-do" items exist: queued tasks plus processes in the
    /// `Running` state. Saturating at the ends.
    work: usize,
    /// How many grant types have been created.
    grant_counter: usize,
    /// Set once a process has read the grant count; no grant may be created
    /// after that, because process memory was laid out for the frozen count.
    grants_finalized: bool,
    /// Generation counter behind every `AppId` handed out.
    process_identifier_max: usize,
    /// Set when a fault policy demands a fatal board halt; schedulers stop
    /// scheduling and the board's outer loop reports the panic.
    halted: bool,
}

impl Kernel {
    /// The outstanding-work count.
    pub closed spec fn spec_work(&self) -> usize {
        self.work
    }

    /// How many grant types have been created.
    pub closed spec fn spec_grant_count(&self) -> usize {
        self.grant_counter
    }

    /// Whether the grant count is frozen.
    pub closed spec fn spec_grants_finalized(&self) -> bool {
        self.grants_finalized
    }

    /// The next process-identifier generation to hand out.
    pub closed spec fn spec_identifier_max(&self) -> usize {
        self.process_identifier_max
    }

    /// Whether a fault policy demanded a fatal board halt.
    pub closed spec fn spec_halted(&self) -> bool {
        self.halted
    }

    /// A fresh kernel: no work, no grants, not halted.
    pub fn new() -> (r: Kernel)
        ensures
            r.spec_work() == 0,
            r.spec_grant_count() == 0,
            !r.spec_grants_finalized(),
            r.spec_identifier_max() == 0,
            !r.spec_halted(),
    {
        Kernel {
            work: 0,
            grant_counter: 0,
            grants_finalized: false,
            process_identifier_max: 0,
            halted: false,
        }
    }

    /// Something was scheduled for a process: one more unit of work to do.
    pub fn increment_work(&mut self)
        ensures
            final(self).spec_work() as int == if old(self).spec_work() < usize::MAX {
                old(self).spec_work() + 1
            } else {
                usize::MAX as int
            },
            unchanged_but_work(*old(self), *final(self)),
    {
        if self.work < usize::MAX {
            self.work = self.work + 1;
        }
    }

    /// Something finished for a process: one less unit of work to do.
    pub fn decrement_work(&mut self)
        ensures
            final(self).spec_work() == if old(self).spec_work() > 0 {
                (old(self).spec_work() - 1) as usize
            } else {
                0
            },
            unchanged_but_work(*old(self), *final(self)),
    {
        if self.work > 0 {
            self.work = self.work - 1;
        }
    }

    /// Whether every process is blocked: no outstanding work remains, so the
    /// scheduler may go to sleep.
    pub fn processes_blocked(&self) -> (r: bool)
        ensures
            r == (self.spec_work() == 0),
    {
        self.work == 0
    }

    /// Whether a fault policy has demanded a fatal board halt.
    pub fn has_halted(&self) -> (r: bool)
        ensures
            r == self.spec_halted(),
    {
        self.halted
    }

    /// Record a fatal board condition: scheduling stops and the board's
    /// outer loop reports the halt.
    pub fn halt(&mut self)
        ensures
            final(self).spec_halted(),
            final(self).spec_work() == old(self).spec_work(),
            final(self).spec_grant_count() == old(self).spec_grant_count(),
            final(self).spec_grants_finalized() == old(self).spec_grants_finalized(),
            final(self).spec_identifier_max() == old(self).spec_identifier_max(),
    {
        self.halted = true;
    }

    /// Create a new grant type, for board initialization to register the
    /// per-process state a driver keeps.
    ///
    /// Grants must only be created before processes are loaded: the layout
    /// of every process's memory fixes the grant count, so the count must be
    /// frozen first. The caller also supplies no more than `usize::MAX`
    /// grants, which process-memory sizes force long before the bound.
    pub fn create_grant(&mut self) -> (r: Grant)
        requires
            !old(self).spec_grants_finalized(),
            old(self).spec_grant_count() < usize::MAX,
        ensures
            r.grant_num == old(self).spec_grant_count(),
            final(self).spec_grant_count() == old(self).spec_grant_count() + 1,
            !final(self).spec_grants_finalized(),
            final(self).spec_work() == old(self).spec_work(),
            final(self).spec_identifier_max() == old(self).spec_identifier_max(),
            final(self).spec_halted() == old(self).spec_halted(),
    {
        let grant_index = self.grant_counter;
        self.grant_counter = self.grant_counter + 1;
        Grant { grant_num: grant_index }
    }

    /// The number of grant types in the system, frozen from now on.
    ///
    /// Called when a process is created, because the process's memory layout
    /// reserves one grant pointer per grant type.
    pub fn get_grant_count_and_finalize(&mut self) -> (r: usize)
        ensures
            r == old(self).spec_grant_count(),
            final(self).spec_grant_count() == old(self).spec_grant_count(),
            final(self).spec_grants_finalized(),
            final(self).spec_work() == old(self).spec_work(),
            final(self).spec_identifier_max() == old(self).spec_identifier_max(),
            final(self).spec_halted() == old(self).spec_halted(),
    {
        self.grants_finalized = true;
        self.grant_counter
    }

    /// A fresh process-identifier generation, distinct from every one handed
    /// out before (wrapping only after `usize::MAX` generations).
    pub fn create_process_identifier(&mut self) -> (r: usize)
        ensures
            r == old(self).spec_identifier_max(),
            final(self).spec_identifier_max() == if old(self).spec_identifier_max() < usize::MAX {
                old(self).spec_identifier_max() + 1
            } else {
                0
            },
            final(self).spec_work() == old(self).spec_work(),
            final(self).spec_grant_count() == old(self).spec_grant_count(),
            final(self).spec_grants_finalized() == old(self).spec_grants_finalized(),
            final(self).spec_halted() == old(self).spec_halted(),
    {
        let id = self.process_identifier_max;
        if self.process_identifier_max < usize::MAX {
            self.process_identifier_max = self.process_identifier_max + 1;
        } else {
            self.process_identifier_max = 0;
        }
        id
    }
}

/// Everything of the kernel except the work counter is unchanged.
pub open spec fn unchanged_but_work(a: Kernel, b: Kernel) -> bool {
    &&& a.spec_grant_count() == b.spec_grant_count()
    &&& a.spec_grants_finalized() == b.spec_grants_finalized()
    &&& a.spec_identifier_max() == b.spec_identifier_max()
    &&& a.spec_halted() == b.spec_halted()
}

/// Carry out one memory operation (`MEMOP` syscall) for a process: adjust
/// its break, report one of its addresses, or record a debug pointer.
///
/// The operand selects the operation: 0 moves the break to `arg0`, 1 moves
/// it by `arg0` taken as a signed offset, 2–6 report the memory and flash
/// addresses, 7–9 describe the writable flash regions, 10 and 11 record the
/// stack and heap start pointers. Anything else is unsupported.
pub fn memop<M: Mpu>(process: &mut Process, mpu: &mut M, operand: u32, arg0: usize) -> (r:
    ReturnCode)
    requires
        old(process).wf(),
    ensures
        final(process).wf(),
        final(process).debug.syscall_count == old(process).debug.syscall_count,
        final(process).debug.last_syscall == old(process).debug.last_syscall,
        operand == 0 || operand == 1 ==> *final(process) == (Process {
            app_break: final(process).app_break,
            mpu_config: final(process).mpu_config,
            ..*old(process)
        }),
        operand == 8 || operand == 9 ==> *final(process) == *old(process),
        operand == 10 || operand == 11 ==> *final(process) == (Process {
            debug: final(process).debug,
            ..*old(process)
        }),
        operand == 0 ==> (r == ReturnCode::SUCCESS ==> final(process).app_break == arg0),
        operand == 1 ==> (r matches ReturnCode::SuccessWithValue { value } ==> value == old(process).app_break),
        operand == 2 ==> r == (ReturnCode::SuccessWithValue { value: old(process).mem_start })
            && *final(process) == *old(process),
        operand == 3 ==> r == (ReturnCode::SuccessWithValue {
            value: old(process).spec_mem_end() as usize,
        }) && *final(process) == *old(process),
        operand == 4 ==> r == (ReturnCode::SuccessWithValue { value: old(process).flash_base })
            && *final(process) == *old(process),
        operand == 5 ==> r == (ReturnCode::SuccessWithValue {
            value: old(process).spec_flash_end() as usize,
        }) && *final(process) == *old(process),
        operand == 6 ==> r == (ReturnCode::SuccessWithValue {
            value: old(process).kernel_memory_break,
        }) && *final(process) == *old(process),
        operand == 7 ==> r == (ReturnCode::SuccessWithValue {
            value: old(process).header.writeable_regions@.len() as usize,
        }) && *final(process) == *old(process),
        operand > 11 ==> r == ReturnCode::ENOSUPPORT && *final(process) == *old(process),
{
    match operand {
        0 => {
            match process.brk(mpu, arg0) {
                Ok(_) => ReturnCode::SUCCESS,
                Err(e) => ReturnCode::from(e),
            }
        },
        1 => {
            let increment = #[verifier::truncate] (arg0 as isize);
            match process.sbrk(mpu, increment) {
                Ok(previous) => ReturnCode::SuccessWithValue { value: previous },
                Err(e) => ReturnCode::from(e),
            }
        },
        2 => ReturnCode::SuccessWithValue { value: process.mem_start },
        3 => ReturnCode::SuccessWithValue { value: process.mem_end() },
        4 => ReturnCode::SuccessWithValue { value: process.flash_base },
        5 => ReturnCode::SuccessWithValue { value: process.flash_end() },
        6 => ReturnCode::SuccessWithValue { value: process.kernel_memory_break },
        7 => ReturnCode::SuccessWithValue { value: process.number_writeable_flash_regions() },
        8 => {
            let (offset, _size) = process.get_writeable_flash_region(arg0);
            match process.flash_base.checked_add(offset as usize) {
                Some(addr) => ReturnCode::SuccessWithValue { value: addr },
                None => ReturnCode::FAIL,
            }
        },
        9 => {
            let (offset, size) = process.get_writeable_flash_region(arg0);
            let end = (offset as u64) + (size as u64);
            if end <= usize::MAX as u64 {
                match process.flash_base.checked_add(end as usize) {
                    Some(addr) => ReturnCode::SuccessWithValue { value: addr },
                    None => ReturnCode::FAIL,
                }
            } else {
                ReturnCode::FAIL
            }
        },
        10 => {
            process.update_stack_start_pointer(arg0);
            ReturnCode::SUCCESS
        },
        11 => {
            process.update_heap_start_pointer(arg0);
            ReturnCode::SUCCESS
        },
        _ => ReturnCode::ENOSUPPORT,
    }
}

impl Kernel {
    /// Deliver a dequeued task to its process: a function call is set up at
    /// the context-switch boundary and marks the process runnable (or
    /// faults it if the boundary cannot), an IPC request is handed to the
    /// board's IPC mechanism.
    pub fn handle_callback<C: Chip, M: Mpu, I: Ipc>(
        &mut self,
        process: &mut Process,
        chip: &mut C,
        mpu: &mut M,
        ipc: &mut I,
        cb: Task,
    )
        requires
            old(process).wf(),
        ensures
            final(process).wf(),
            final(self).spec_grant_count() == old(self).spec_grant_count(),
            final(self).spec_grants_finalized() == old(self).spec_grants_finalized(),
            cb matches Task::FunctionCall(ccb) ==> (*final(process) == (Process {
                state: State::Running,
                ..*old(process)
            }) && final(self).spec_work() == spec_work_after_transition(
                old(self).spec_work(),
                old(process).state,
                State::Running,
            ) && unchanged_but_work(*old(self), *final(self))) || spec_fault_outcome(
                *old(process),
                *final(process),
                *old(self),
                *final(self),
            ),
            cb matches Task::IPC(otherapp, t) ==> *final(process) == *old(process) && *final(self)
                == *old(self),
    {
        match cb {
            Task::FunctionCall(ccb) => {
                process.set_process_function(self, chip, mpu, ccb);
            },
            Task::IPC(otherapp, ipc_type) => {
                ipc.schedule_callback(process.appid(), otherapp, ipc_type);
            },
        }
    }

    /// Handle a process that has returned to the kernel after executing:
    /// classify why the context switch ended and route it.
    ///
    /// A fault — or a switch that failed internally, reported as no reason
    /// at all — applies the process's fault response. A timeslice expiry or
    /// an interruption changes nothing here; the scheduler decides what to
    /// do with the process. A syscall is counted, then serviced: `YIELD`
    /// moves the process to the yielded state, `MEMOP` runs the memory
    /// operation, and `SUBSCRIBE`, `COMMAND` and `ALLOW` are routed to the
    /// board's drivers, with the outcome delivered as the syscall return
    /// value. A `SUBSCRIBE` first removes every queued upcall of the
    /// subscription it replaces, so none survives in the queue.
    pub fn process_return<P: Platform, C: Chip, M: Mpu>(
        &mut self,
        appid: AppId,
        context_switch_reason: Option<ContextSwitchReason>,
        process: &mut Process,
        platform: &mut P,
        chip: &mut C,
        mpu: &mut M,
    )
        requires
            old(process).wf(),
        ensures
            final(process).wf(),
            final(self).spec_grant_count() == old(self).spec_grant_count(),
            final(self).spec_grants_finalized() == old(self).spec_grants_finalized(),
            context_switch_reason is None || context_switch_reason == Some(
                ContextSwitchReason::Fault,
            ) ==> spec_fault_outcome(*old(process), *final(process), *old(self), *final(self)),
            context_switch_reason == Some(ContextSwitchReason::TimesliceExpired)
                || context_switch_reason == Some(ContextSwitchReason::Interrupted) ==> *final(process) == *old(process) && *final(self) == *old(self),
            context_switch_reason == Some(
                ContextSwitchReason::SyscallFired { syscall: Syscall::YIELD },
            ) ==> {
                &&& final(process).state == spec_yield_transition(old(process).state)
                &&& final(process).debug.syscall_count == spec_usize_inc(
                    old(process).debug.syscall_count,
                )
                &&& final(process).tasks@ == old(process).tasks@
                &&& final(self).spec_work() == spec_work_after_transition(
                    old(self).spec_work(),
                    old(process).state,
                    spec_yield_transition(old(process).state),
                )
                &&& unchanged_but_work(*old(self), *final(self))
            },
            context_switch_reason matches Some(ContextSwitchReason::SyscallFired { syscall })
                ==> (final(process).debug.syscall_count == spec_usize_inc(
                old(process).debug.syscall_count,
            ) && final(process).debug.last_syscall == Some(syscall)) || spec_post_fault_state(
                final(process).state,
            ),
            context_switch_reason matches Some(
                ContextSwitchReason::SyscallFired { syscall: Syscall::MEMOP { operand, arg0 } },
            ) ==> *final(process) == (Process {
                debug: final(process).debug,
                app_break: final(process).app_break,
                mpu_config: final(process).mpu_config,
                ..*old(process)
            }) || spec_post_fault_state(final(process).state),
            context_switch_reason matches Some(
                ContextSwitchReason::SyscallFired {
                    syscall: Syscall::ALLOW {
                        driver_number,
                        subdriver_number,
                        allow_address,
                        allow_size,
                    },
                },
            ) ==> (*final(process) == (Process {
                debug: final(process).debug,
                allow_high_water_mark: final(process).allow_high_water_mark,
                ..*old(process)
            }) && final(process).allow_high_water_mark >= old(process).allow_high_water_mark)
                || spec_post_fault_state(final(process).state),
            context_switch_reason matches Some(
                ContextSwitchReason::SyscallFired { syscall: Syscall::COMMAND { .. } },
            ) ==> (*final(process) == (Process { debug: final(process).debug, ..*old(process) })
                && final(process).debug == (ProcessDebug {
                syscall_count: final(process).debug.syscall_count,
                last_syscall: final(process).debug.last_syscall,
                ..old(process).debug
            })) || spec_fault_outcome(
                (Process { debug: final(process).debug, ..*old(process) }),
                *final(process),
                *old(self),
                *final(self),
            ),
            context_switch_reason matches Some(
                ContextSwitchReason::SyscallFired {
                    syscall: Syscall::SUBSCRIBE {
                        driver_number,
                        subdriver_number,
                        upcall_ptr,
                        appdata,
                    },
                },
            ) ==> forall|j: int|
                0 <= j < final(process).tasks@.len() ==> !spec_task_matches_upcall(
                    #[trigger] final(process).tasks@[j],
                    UpcallId { driver_num: driver_number, subscribe_num: subdriver_number },
                ),
    {
        match context_switch_reason {
            Some(ContextSwitchReason::Fault) => {
                // The process faulted; let its fault response deal with it.
                process.set_fault_state(self, chip, mpu);
            },
            Some(ContextSwitchReason::SyscallFired { syscall }) => {
                process.debug_syscall_called(syscall);
                match syscall {
                    Syscall::MEMOP { operand, arg0 } => {
                        let res = memop(process, mpu, operand, arg0);
                        process.set_syscall_return_value(self, chip, mpu, res);
                    },
                    Syscall::YIELD => {
                        process.set_yielded_state(self);
                    },
                    Syscall::SUBSCRIBE {
                        driver_number,
                        subdriver_number,
                        upcall_ptr,
                        appdata,
                    } => {
                        let upcall_id = UpcallId {
                            driver_num: driver_number,
                            subscribe_num: subdriver_number,
                        };
                        // The new subscription replaces the old one, so any
                        // upcalls still queued under it must not run.
                        process.remove_pending_upcalls(self, upcall_id);
                        let res = platform.subscribe(
                            driver_number,
                            subdriver_number,
                            upcall_ptr,
                            appdata,
                            appid,
                        );
                        process.set_syscall_return_value(self, chip, mpu, res);
                    },
                    Syscall::COMMAND { driver_number, subdriver_number, arg0, arg1 } => {
                        let res = platform.command(
                            driver_number,
                            subdriver_number,
                            arg0,
                            arg1,
                            appid,
                        );
                        process.set_syscall_return_value(self, chip, mpu, res);
                    },
                    Syscall::ALLOW {
                        driver_number,
                        subdriver_number,
                        allow_address,
                        allow_size,
                    } => {
                        let validated = process.build_readwrite_appslice(
                            allow_address,
                            allow_size,
                        );
                        let res = platform.allow(
                            appid,
                            driver_number,
                            subdriver_number,
                            validated,
                        );
                        process.set_syscall_return_value(self, chip, mpu, res);
                    },
                }
            },
            Some(ContextSwitchReason::TimesliceExpired) => (),
            Some(ContextSwitchReason::Interrupted) => (),
            None => {
                // Something went wrong when switching to this process;
                // treat it as a fault.
                process.set_fault_state(self, chip, mpu);
            },
        }
    }

    /// Cause every loaded process to fault, applying each one's fault
    /// response — the big hammer a board reaches for when it must stop or
    /// restart every application at once.
    pub fn hardfault_all_apps<C: Chip, M: Mpu>(
        &mut self,
        slots: &mut ProcessSlots,
        chip: &mut C,
        mpu: &mut M,
    )
        requires
            old(slots).wf(),
        ensures
            final(slots).wf(),
            final(slots)@.len() == old(slots)@.len(),
            forall|i: int|
                0 <= i < final(slots)@.len() ==> (#[trigger] final(slots)@[i] matches Some(p)
                    ==> spec_post_fault_state(p.state)),
    {
        let count = slots.len();
        let mut i: usize = 0;
        while i < count
            invariant
                i <= count,
                count == slots@.len(),
                slots@.len() == old(slots)@.len(),
                slots.wf(),
                forall|j: int|
                    0 <= j < i ==> (#[trigger] slots@[j] matches Some(p)
                        ==> spec_post_fault_state(p.state)),
            decreases count - i,
        {
            match slots.take(i) {
                Some(mut process) => {
                    process.set_fault_state(self, chip, mpu);
                    slots.put(i, Some(process));
                },
                None => (),
            }
            i = i + 1;
        }
    }

    /// Run a closure on every loaded process, with its slot index.
    pub fn process_each_capability<F: Fn(usize, &Process)>(
        &self,
        slots: &ProcessSlots,
        closure: F,
    )
        requires
            forall|i: usize, p: &Process| #[trigger] closure.requires((i, p)),
    {
        let count = slots.len();
        let mut i: usize = 0;
        while i < count
            invariant
                count == slots@.len(),
                forall|j: usize, p: &Process| #[trigger] closure.requires((j, p)),
            decreases count - i,
        {
            match slots.get(i) {
                Some(process) => {
                    closure(i, process);
                },
                None => (),
            }
            i = i + 1;
        }
    }
}


} // verus!
