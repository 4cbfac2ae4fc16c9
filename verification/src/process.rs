//! Process control blocks: creating and running userspace applications.
//!
//! A process owns a contiguous window of RAM, subdivided from opposite ends:
//! the kernel region at the top (grant-pointer table, task ring buffer, and
//! the control block's own footprint) grows downward behind
//! `kernel_memory_break`, the application region at the bottom (heap and
//! stack) grows upward behind `app_break`, and the invariant
//! `mem_start <= app_break <= kernel_memory_break <= mem_end`
//! holds after every operation: anything that would violate it fails with an
//! out-of-memory or out-of-bounds error rather than letting the regions
//! overlap.
//!
//! The control block is modelled over plain addresses: it records where every
//! sub-region lies and makes every syscall-adjacent memory-safety decision
//! (slice validation, grant allocation and entry, break adjustment), while
//! the bytes themselves live on the board.

use vstd::prelude::*;

use crate::error::{Error, ErrorCode, ProcessLoadError};
use crate::header::{parse_header, parse_header_lengths, InitialParseError, ProcessHeader};
use crate::mem::{ReadOnlyAppSlice, ReadWriteAppSlice};
use crate::platform::mpu::{Mpu, MpuConfig, MpuRegion, Permissions};
use crate::platform::Chip;
use crate::sched::Kernel;
use crate::task::{
    AppId,
    ContextSwitchReason,
    FunctionCall,
    FunctionCallSource,
    Syscall,
    Task,
    UpcallId,
};

verus! {

/// The completion code reported for a process that faulted.
pub const COMPLETION_FAULT: u32 = 0xFFFF_FFFF;

/// Capacity of each process's task ring buffer.
pub const TASK_QUEUE_LEN: usize = 10;

/// Bytes one queued task occupies in the kernel region of process memory.
pub const TASK_BYTES: usize = 32;

/// Bytes the task ring buffer occupies in the kernel region.
pub const TASK_RING_BYTES: usize = TASK_BYTES * TASK_QUEUE_LEN;

/// Bytes the control block itself occupies in the kernel region.
pub const PROCESS_STRUCT_BYTES: usize = 200;

/// Bytes one grant-pointer table entry occupies in the kernel region.
pub const GRANT_POINTER_BYTES: usize = 4;

/// How many protection regions a process may add beyond its two fixed ones.
pub const MPU_REGION_SLOTS: usize = 6;

/// A contiguous span of memory handed to the loader to carve processes from.
#[derive(Copy, Clone, Debug, PartialEq, Eq, Structural)]
pub struct MemoryRegion {
    /// First address of the span.
    pub start: usize,
    /// Length of the span in bytes.
    pub size: usize,
}

impl MemoryRegion {
    /// One past the last address of the span.
    pub open spec fn spec_end(&self) -> int {
        self.start + self.size
    }

    /// The span's end stays within the address space.
    pub open spec fn wf(&self) -> bool {
        self.start + self.size <= usize::MAX
    }
}

/// Various states a process can be in.
#[derive(Copy, Clone, Debug, PartialEq, Eq, Structural)]
pub enum State {
    /// The process expects to be running code.
    Running,
    /// The process returned to the kernel through the `yield` syscall and
    /// waits for an upcall.
    Yielded,
    /// The kernel stopped the process while it was `Running`; resuming puts
    /// it back in `Running`.
    StoppedRunning,
    /// The kernel stopped the process while it was `Yielded`; resuming puts
    /// it back in `Yielded`.
    StoppedYielded,
    /// The process faulted and cannot run.
    Faulted,
    /// The process was terminated and cannot run.
    Terminated,
    /// The process has never been executed, or was reset by a restart.
    Unstarted,
}

/// Where `stop` takes each state: running and yielded processes move to the
/// matching stopped state, every other state is left alone.
pub open spec fn spec_stop_transition(s: State) -> State {
    match s {
        State::Running => State::StoppedRunning,
        State::Yielded => State::StoppedYielded,
        _ => s,
    }
}

/// Where `resume` takes each state: stopped processes move back to the state
/// they were stopped in, every other state is left alone.
pub open spec fn spec_resume_transition(s: State) -> State {
    match s {
        State::StoppedRunning => State::Running,
        State::StoppedYielded => State::Yielded,
        _ => s,
    }
}

/// Where the `yield` syscall takes each state: only a running process moves
/// to `Yielded`.
pub open spec fn spec_yield_transition(s: State) -> State {
    if s is Running {
        State::Yielded
    } else {
        s
    }
}

/// Whether a process in state `s` is active: it could resume executing in
/// the future without being restarted.
pub open spec fn spec_state_active(s: State) -> bool {
    !(s is Terminated) && !(s is Faulted)
}

/// Generic interface for process restart policies: a policy decides, from
/// how often a process has already been restarted, whether to restart it
/// again after a crash.
pub trait ProcessRestartPolicy {
    /// The decision the policy makes for a process restarted
    /// `restart_count` times so far.
    spec fn spec_should_restart(&self, restart_count: usize) -> bool;

    /// Inputs on which the policy may be consulted at all; exceeding a
    /// fatal threshold must be handled by the caller instead.
    spec fn spec_may_consult(&self, restart_count: usize) -> bool;

    /// Decide whether a process restarted `restart_count` times so far
    /// should be restarted again.
    fn should_restart(&self, restart_count: usize) -> (r: bool)
        requires
            self.spec_may_consult(restart_count),
        ensures
            r == self.spec_should_restart(restart_count),
    ;
}

/// Restart a crashed process while it has crashed at most `threshold` times,
/// then leave it stopped.
#[derive(Copy, Clone, Debug, PartialEq, Eq, Structural)]
pub struct ThresholdRestart {
    /// Most crashes after which the process is still restarted.
    pub threshold: usize,
}

impl ThresholdRestart {
    /// Restart up to `threshold` times, then give up.
    pub fn new(threshold: usize) -> (r: ThresholdRestart)
        ensures
            r.threshold == threshold,
    {
        ThresholdRestart { threshold }
    }
}

impl ProcessRestartPolicy for ThresholdRestart {
    open spec fn spec_should_restart(&self, restart_count: usize) -> bool {
        restart_count <= self.threshold
    }

    open spec fn spec_may_consult(&self, restart_count: usize) -> bool {
        true
    }

    fn should_restart(&self, restart_count: usize) -> bool {
        restart_count <= self.threshold
    }
}

/// Restart a crashed process while it has crashed at most `threshold` times;
/// exceeding the threshold is a fatal board condition.
#[derive(Copy, Clone, Debug, PartialEq, Eq, Structural)]
pub struct ThresholdRestartThenPanic {
    /// Most crashes after which the process is still restarted; one more is
    /// a fatal board condition.
    pub threshold: usize,
}

impl ThresholdRestartThenPanic {
    /// Restart up to `threshold` times, then halt the board.
    pub fn new(threshold: usize) -> (r: ThresholdRestartThenPanic)
        ensures
            r.threshold == threshold,
    {
        ThresholdRestartThenPanic { threshold }
    }

    /// Whether a process restarted `restart_count` times has exceeded the
    /// fatal threshold.
    pub fn exceeded(&self, restart_count: usize) -> (r: bool)
        ensures
            r == !self.spec_should_restart(restart_count),
    {
        restart_count > self.threshold
    }
}

impl ProcessRestartPolicy for ThresholdRestartThenPanic {
    open spec fn spec_should_restart(&self, restart_count: usize) -> bool {
        restart_count <= self.threshold
    }

    /// Beyond the threshold the board must halt instead of asking again.
    open spec fn spec_may_consult(&self, restart_count: usize) -> bool {
        restart_count <= self.threshold
    }

    fn should_restart(&self, restart_count: usize) -> bool {
        true
    }
}

/// Restart a crashed process unconditionally.
#[derive(Copy, Clone, Debug, PartialEq, Eq, Structural)]
pub struct AlwaysRestart {}

impl AlwaysRestart {
    /// Restart after every crash.
    pub fn new() -> (r: AlwaysRestart) {
        AlwaysRestart {  }
    }
}

impl ProcessRestartPolicy for AlwaysRestart {
    open spec fn spec_should_restart(&self, restart_count: usize) -> bool {
        true
    }

    open spec fn spec_may_consult(&self, restart_count: usize) -> bool {
        true
    }

    fn should_restart(&self, restart_count: usize) -> bool {
        true
    }
}

/// The restart policies a fault response can carry, as one value.
#[derive(Copy, Clone, Debug, PartialEq, Eq, Structural)]
pub enum RestartPolicy {
    /// Restart unconditionally.
    Always(AlwaysRestart),
    /// Restart up to a threshold, then give up.
    Threshold(ThresholdRestart),
    /// Restart up to a threshold, then halt the board.
    ThresholdThenPanic(ThresholdRestartThenPanic),
}

impl RestartPolicy {
    /// The decision the wrapped policy makes.
    pub open spec fn spec_should_restart(&self, restart_count: usize) -> bool {
        match self {
            RestartPolicy::Always(p) => p.spec_should_restart(restart_count),
            RestartPolicy::Threshold(p) => p.spec_should_restart(restart_count),
            RestartPolicy::ThresholdThenPanic(p) => p.spec_should_restart(restart_count),
        }
    }

    /// Whether refusing the restart is a fatal board condition.
    pub open spec fn spec_fatal_when_refused(&self) -> bool {
        self is ThresholdThenPanic
    }

    /// Decide whether a process restarted `restart_count` times so far
    /// should be restarted again.
    pub fn decide(&self, restart_count: usize) -> (r: bool)
        ensures
            r == self.spec_should_restart(restart_count),
    {
        match self {
            RestartPolicy::Always(p) => p.should_restart(restart_count),
            RestartPolicy::Threshold(p) => p.should_restart(restart_count),
            RestartPolicy::ThresholdThenPanic(p) => {
                if p.exceeded(restart_count) {
                    false
                } else {
                    p.should_restart(restart_count)
                }
            },
        }
    }
}

/// The reaction the kernel takes when a process encounters a fault.
#[derive(Copy, Clone, Debug, PartialEq, Eq, Structural)]
pub enum FaultResponse {
    /// Record a fatal board condition, halting all scheduling. Useful while
    /// developing applications, as the fault surfaces immediately.
    Panic,
    /// Clean up and restart the process that faulted, if the carried policy
    /// agrees; otherwise the process stays terminated.
    Restart(RestartPolicy),
    /// Stop the process: it is no longer scheduled but its state is kept for
    /// inspection.
    Stop,
}

/// One entry of the grant-pointer table.
///
/// A grant is kernel-owned memory carved from the kernel region on first
/// use. Entering a grant marks it borrowed; entering an already-entered
/// grant is an error, modelling exclusive, non-reentrant access.
#[derive(Copy, Clone, Debug, PartialEq, Eq, Structural)]
pub enum GrantState {
    /// The grant has not been allocated.
    Empty,
    /// The grant is allocated at the given address and not entered.
    Allocated { addr: usize },
    /// The grant is allocated at the given address and currently entered.
    Entered { addr: usize },
}

impl GrantState {
    /// Whether the grant has been allocated (entered or not).
    pub open spec fn spec_is_allocated(&self) -> bool {
        !(self is Empty)
    }
}

/// Counters and pointers kept only to help debugging applications.
pub struct ProcessDebug {
    /// The fixed flash address the binary asked for, if any.
    pub fixed_address_flash: Option<u32>,
    /// The fixed RAM address the binary asked for, if any.
    pub fixed_address_ram: Option<u32>,
    /// Where the process reported its heap to start.
    pub app_heap_start_pointer: Option<usize>,
    /// Where the process reported its stack to start.
    pub app_stack_start_pointer: Option<usize>,
    /// The lowest stack pointer the kernel has seen.
    pub app_stack_min_pointer: Option<usize>,
    /// How many syscalls the process has made since it started.
    pub syscall_count: usize,
    /// The most recent syscall.
    pub last_syscall: Option<Syscall>,
    /// How many upcalls were dropped because the task queue was full.
    pub dropped_upcall_count: usize,
    /// How many times the process ran out its timeslice.
    pub timeslice_expiration_count: usize,
}

impl ProcessDebug {
    /// Fresh debug state for a new execution of the process.
    pub fn new(fixed_address_flash: Option<u32>, fixed_address_ram: Option<u32>) -> (r:
        ProcessDebug)
        ensures
            r.fixed_address_flash == fixed_address_flash,
            r.fixed_address_ram == fixed_address_ram,
            r.app_heap_start_pointer is None,
            r.app_stack_start_pointer is None,
            r.app_stack_min_pointer is None,
            r.syscall_count == 0,
            r.last_syscall is None,
            r.dropped_upcall_count == 0,
            r.timeslice_expiration_count == 0,
    {
        ProcessDebug {
            fixed_address_flash,
            fixed_address_ram,
            app_heap_start_pointer: None,
            app_stack_start_pointer: None,
            app_stack_min_pointer: None,
            syscall_count: 0,
            last_syscall: None,
            dropped_upcall_count: 0,
            timeslice_expiration_count: 0,
        }
    }
}

/// Whether a task is a driver upcall with the given identity; these are the
/// tasks removed when a process replaces a subscription.
pub open spec fn spec_task_matches_upcall(t: Task, id: UpcallId) -> bool {
    t matches Task::FunctionCall(fc) && fc.source matches FunctionCallSource::Driver(u) && u == id
}

/// The bounded FIFO of tasks queued for one process.
///
/// A full queue drops the newest task: the kernel favors continuing
/// execution over blocking the upcall source, and the drop is observable
/// through a debug counter kept by the process.
pub struct TaskQueue {
    items: Vec<Task>,
}

impl View for TaskQueue {
    type V = Seq<Task>;

    closed spec fn view(&self) -> Seq<Task> {
        self.items@
    }
}

impl TaskQueue {
    /// The queue never holds more than its ring capacity.
    pub open spec fn wf(&self) -> bool {
        self@.len() <= TASK_QUEUE_LEN
    }

    /// An empty queue.
    pub fn new() -> (r: TaskQueue)
        ensures
            r@ == Seq::<Task>::empty(),
            r.wf(),
    {
        TaskQueue { items: Vec::new() }
    }

    /// How many tasks are queued.
    pub fn len(&self) -> (r: usize)
        ensures
            r == self@.len(),
    {
        self.items.len()
    }

    /// Whether any task is queued.
    pub fn has_elements(&self) -> (r: bool)
        ensures
            r == (self@.len() > 0),
    {
        self.items.len() > 0
    }

    /// Append a task, unless the queue is full.
    pub fn enqueue(&mut self, task: Task) -> (r: bool)
        ensures
            old(self).wf() ==> final(self).wf(),
            r == (old(self)@.len() < TASK_QUEUE_LEN),
            r ==> final(self)@ == old(self)@.push(task),
            !r ==> *final(self) == *old(self),
    {
        if self.items.len() < TASK_QUEUE_LEN {
            self.items.push(task);
            true
        } else {
            false
        }
    }

    /// Remove and return the oldest task.
    pub fn dequeue(&mut self) -> (r: Option<Task>)
        ensures
            old(self).wf() ==> final(self).wf(),
            r is Some <==> old(self)@.len() > 0,
            r matches Some(t) ==> t == old(self)@[0] && final(self)@ == old(self)@.drop_first(),
            r is None ==> *final(self) == *old(self),
    {
        if self.items.len() > 0 {
            let t = self.items.remove(0);
            proof {
                assert(self.items@ =~= old(self)@.drop_first());
            }
            Some(t)
        } else {
            None
        }
    }

    /// Drop every queued task.
    pub fn empty(&mut self)
        ensures
            final(self)@ == Seq::<Task>::empty(),
            final(self).wf(),
    {
        self.items.clear();
    }

    /// Remove every queued upcall with the given identity, returning how
    /// many were removed.
    pub fn remove_upcalls(&mut self, upcall_id: UpcallId) -> (removed: usize)
        ensures
            old(self).wf() ==> final(self).wf(),
            final(self)@ == old(self)@.filter(|t: Task| !spec_task_matches_upcall(t, upcall_id)),
            removed == old(self)@.len() - final(self)@.len(),
    {
        let ghost pred = |t: Task| !spec_task_matches_upcall(t, upcall_id);
        let mut kept: Vec<Task> = Vec::new();
        let mut i: usize = 0;
        proof {
            assert(old(self)@.subrange(0, 0) =~= Seq::<Task>::empty());
            reveal(Seq::filter);
        }
        while i < self.items.len()
            invariant
                i <= self.items@.len(),
                self.items@ == old(self)@,
                kept@ == old(self)@.subrange(0, i as int).filter(pred),
                pred == (|t: Task| !spec_task_matches_upcall(t, upcall_id)),
            decreases self.items@.len() - i,
        {
            let t = self.items[i];
            let keep = match t {
                Task::FunctionCall(fc) => match fc.source {
                    FunctionCallSource::Kernel => true,
                    FunctionCallSource::Driver(id) => !(id.driver_num == upcall_id.driver_num
                        && id.subscribe_num == upcall_id.subscribe_num),
                },
                _ => true,
            };
            proof {
                let sub0 = old(self)@.subrange(0, i as int);
                let sub1 = old(self)@.subrange(0, i + 1);
                assert(sub1.drop_last() =~= sub0);
                assert(sub1.last() == old(self)@[i as int]);
                reveal(Seq::filter);
                assert(keep == pred(t));
            }
            if keep {
                kept.push(t);
            }
            i = i + 1;
        }
        proof {
            assert(old(self)@.subrange(0, old(self)@.len() as int) =~= old(self)@);
            old(self)@.lemma_filter_len(pred);
        }
        let removed = self.items.len() - kept.len();
        self.items = kept;
        removed
    }
}

/// Saturating increment of the work counter.
pub open spec fn spec_work_inc(w: usize) -> usize {
    if w < usize::MAX {
        (w + 1) as usize
    } else {
        usize::MAX
    }
}

/// Saturating decrement of the work counter.
pub open spec fn spec_work_dec(w: usize) -> usize {
    if w > 0 {
        (w - 1) as usize
    } else {
        0
    }
}

/// Saturating subtraction of `n` from the work counter.
pub open spec fn spec_work_sub(w: usize, n: int) -> usize {
    if w >= n {
        (w - n) as usize
    } else {
        0
    }
}

/// The work counter after a process moves between states: entering
/// `Running` adds one unit of work, leaving it removes one.
pub open spec fn spec_work_after_transition(w: usize, old_state: State, new_state: State) -> usize {
    if old_state is Running && !(new_state is Running) {
        spec_work_dec(w)
    } else if new_state is Running && !(old_state is Running) {
        spec_work_inc(w)
    } else {
        w
    }
}

/// The kernel's live record of one loaded process.
pub struct Process {
    /// Identifier of this process: its slot index and generation.
    pub app_id: AppId,
    /// First address of the process's RAM window.
    pub mem_start: usize,
    /// Size of the RAM window in bytes.
    pub mem_size: usize,
    /// Lowest address of the kernel-owned region at the top of the window.
    pub kernel_memory_break: usize,
    /// One past the highest address the application may touch.
    pub app_break: usize,
    /// High-water mark of memory exposed through validated slices; it never
    /// moves down while the process lives, only a restart resets it.
    pub allow_high_water_mark: usize,
    /// First address of the process's flash entry.
    pub flash_base: usize,
    /// Length of the flash entry in bytes.
    pub flash_size: usize,
    /// Metadata decoded from the entry's binary header.
    pub header: ProcessHeader,
    /// The state machine position of the process.
    pub state: State,
    /// How the kernel reacts when this process faults.
    pub fault_response: FaultResponse,
    /// Protection configuration for this process.
    pub mpu_config: MpuConfig,
    /// Extra protection regions granted to the process.
    pub mpu_regions: Vec<Option<MpuRegion>>,
    /// Tasks queued for the process.
    pub tasks: TaskQueue,
    /// The grant-pointer table, one entry per registered grant type.
    pub grants: Vec<GrantState>,
    /// How many times the process has faulted and been restarted.
    pub restart_count: usize,
    /// Debugging counters and pointers.
    pub debug: ProcessDebug,
    /// The smallest application-accessible span the chip needs, recorded at
    /// creation so a restart reproduces the same layout.
    pub min_break_size: usize,
    /// Where `app_break` started, recorded at creation for restarts.
    pub initial_app_break: usize,
    /// Size of the kernel-owned region at creation, recorded for restarts.
    pub initial_kernel_memory_size: usize,
}

impl Process {
    /// One past the last address of the process's RAM window.
    pub open spec fn spec_mem_end(&self) -> int {
        self.mem_start + self.mem_size
    }

    /// One past the last address of the process's flash entry.
    pub open spec fn spec_flash_end(&self) -> int {
        self.flash_base + self.flash_size
    }

    /// Whether the process is active: it could resume executing without
    /// being restarted.
    pub open spec fn spec_is_active(&self) -> bool {
        spec_state_active(self.state)
    }

    /// The memory layout invariant of a live process: the application
    /// region, the unused gap and the kernel region partition the window,
    ///
    /// `mem_start <= app_break <= kernel_memory_break <= mem_end`,
    ///
    /// the high-water mark of shared slices stays inside the application
    /// region, the recorded initial layout fits the window (so a restart can
    /// re-establish it), and the flash entry is well-formed.
    pub open spec fn wf(&self) -> bool {
        &&& self.mem_start + self.mem_size <= usize::MAX
        &&& self.mem_start <= self.allow_high_water_mark
        &&& self.allow_high_water_mark <= self.app_break
        &&& self.app_break <= self.kernel_memory_break
        &&& self.kernel_memory_break <= self.spec_mem_end()
        &&& self.flash_base + self.flash_size <= usize::MAX
        &&& self.header.protected_size <= self.flash_size
        &&& self.header.init_fn_offset <= self.flash_size
        &&& self.tasks.wf()
        &&& self.mem_start <= self.initial_app_break
        &&& self.initial_app_break + self.initial_kernel_memory_size <= self.spec_mem_end()
    }

    /// Whether the process is active (not terminated and not faulted).
    pub fn is_active(&self) -> (r: bool)
        ensures
            r == self.spec_is_active(),
    {
        match self.state {
            State::Terminated => false,
            State::Faulted => false,
            _ => true,
        }
    }

    /// One past the last address of the process's RAM window.
    pub fn mem_end(&self) -> (r: usize)
        requires
            self.wf(),
        ensures
            r == self.spec_mem_end(),
    {
        self.mem_start + self.mem_size
    }

    /// One past the last address of the process's flash entry.
    pub fn flash_end(&self) -> (r: usize)
        requires
            self.wf(),
        ensures
            r == self.spec_flash_end(),
    {
        self.flash_base + self.flash_size
    }

    /// The first address of the process's flash that the kernel does not
    /// protect: past the header and any other kernel-owned prefix.
    pub fn flash_non_protected_start(&self) -> (r: usize)
        requires
            self.wf(),
        ensures
            r == self.flash_base + self.header.protected_size,
    {
        self.flash_base + (self.header.protected_size as usize)
    }

    /// Move the process to `new_state`, keeping the kernel's work counter in
    /// step: entering `Running` adds a unit of work, leaving it removes one.
    fn set_state(&mut self, kernel: &mut Kernel, new_state: State)
        ensures
            *final(self) == (Process { state: new_state, ..*old(self) }),
            final(kernel).spec_work() == spec_work_after_transition(
                old(kernel).spec_work(),
                old(self).state,
                new_state,
            ),
            crate::sched::unchanged_but_work(*old(kernel), *final(kernel)),
    {
        let old_is_running = match self.state {
            State::Running => true,
            _ => false,
        };
        let new_is_running = match new_state {
            State::Running => true,
            _ => false,
        };
        if old_is_running && !new_is_running {
            kernel.decrement_work();
        } else if new_is_running && !old_is_running {
            kernel.increment_work();
        }
        self.state = new_state;
    }
}

/// The interface of a process control block that schedulers and drivers
/// consume. The kernel's own [`Process`] implements it; a board may supply
/// process objects of its own.
pub trait ProcessType {
    /// The process's identifier.
    fn appid(&self) -> AppId;

    /// Whether the process is ready to execute: it has queued tasks or
    /// expects to be running.
    fn ready(&self) -> bool;

    /// Whether any tasks are queued for the process.
    fn has_tasks(&self) -> bool;

    /// The current state of the process.
    fn get_state(&self) -> State;

    /// How many times the process has been restarted.
    fn get_restart_count(&self) -> usize;

    /// The first address of the process's RAM window.
    fn mem_start(&self) -> usize;

    /// The first address of the process's flash entry.
    fn flash_start(&self) -> usize;

    /// The lowest address of the kernel-owned region of process memory.
    fn kernel_memory_break(&self) -> usize;

    /// How many writable flash regions the process's header defines.
    fn number_writeable_flash_regions(&self) -> usize;

    /// The writable flash region at `region_index` as (offset, size), or
    /// (0, 0) when there is no such region.
    fn get_writeable_flash_region(&self, region_index: usize) -> (u32, u32);

    /// Queue a task for the process, to be run by the scheduler. Fails,
    /// returning `false`, when the process is inactive or its queue is full.
    fn enqueue_task(&mut self, kernel: &mut Kernel, task: Task) -> bool;

    /// Remove and return the oldest queued task.
    fn dequeue_task(&mut self, kernel: &mut Kernel) -> Option<Task>;

    /// Remove every queued upcall with the given identity.
    fn remove_pending_upcalls(&mut self, kernel: &mut Kernel, upcall_id: UpcallId);

    /// Move a running process to the yielded state; a no-op elsewhere.
    fn set_yielded_state(&mut self, kernel: &mut Kernel);

    /// Stop a running or yielded process; a no-op elsewhere.
    fn stop(&mut self, kernel: &mut Kernel);

    /// Put a stopped process back in the state it was stopped in; a no-op
    /// elsewhere.
    fn resume(&mut self, kernel: &mut Kernel);

    /// How many syscalls the process has made.
    fn debug_syscall_count(&self) -> usize;

    /// How many upcalls were dropped because the task queue was full.
    fn debug_dropped_upcall_count(&self) -> usize;

    /// How many times the process ran out its timeslice.
    fn debug_timeslice_expiration_count(&self) -> usize;

    /// Count one more exhausted timeslice.
    fn debug_timeslice_expired(&mut self);

    /// Count one more syscall and remember which it was.
    fn debug_syscall_called(&mut self, last_syscall: Syscall);
}

impl ProcessType for Process {
    fn appid(&self) -> (r: AppId)
        ensures
            r == self.app_id,
    {
        self.app_id
    }

    fn ready(&self) -> (r: bool)
        ensures
            r == (self.tasks@.len() > 0 || self.state is Running),
    {
        self.tasks.has_elements() || match self.state {
            State::Running => true,
            _ => false,
        }
    }

    fn has_tasks(&self) -> (r: bool)
        ensures
            r == (self.tasks@.len() > 0),
    {
        self.tasks.has_elements()
    }

    fn get_state(&self) -> (r: State)
        ensures
            r == self.state,
    {
        self.state
    }

    fn get_restart_count(&self) -> (r: usize)
        ensures
            r == self.restart_count,
    {
        self.restart_count
    }

    fn mem_start(&self) -> (r: usize)
        ensures
            r == self.mem_start,
    {
        self.mem_start
    }


    fn flash_start(&self) -> (r: usize)
        ensures
            r == self.flash_base,
    {
        self.flash_base
    }



    fn kernel_memory_break(&self) -> (r: usize)
        ensures
            r == self.kernel_memory_break,
    {
        self.kernel_memory_break
    }

    fn number_writeable_flash_regions(&self) -> (r: usize)
        ensures
            r == self.header.writeable_regions@.len(),
    {
        self.header.writeable_regions.len()
    }

    fn get_writeable_flash_region(&self, region_index: usize) -> (r: (u32, u32))
        ensures
            region_index < self.header.writeable_regions@.len() ==> r
                == self.header.writeable_regions@[region_index as int],
            region_index >= self.header.writeable_regions@.len() ==> r == (0u32, 0u32),
    {
        if region_index < self.header.writeable_regions.len() {
            self.header.writeable_regions[region_index]
        } else {
            (0, 0)
        }
    }

    fn enqueue_task(&mut self, kernel: &mut Kernel, task: Task) -> (r: bool)
        ensures
            old(self).wf() ==> final(self).wf(),
            r == (old(self).spec_is_active() && old(self).tasks@.len() < TASK_QUEUE_LEN),
            !old(self).spec_is_active() ==> *final(self) == *old(self) && *final(kernel) == *old(kernel),
            old(self).spec_is_active() && r ==> {
                &&& final(self).tasks@ == old(self).tasks@.push(task)
                &&& *final(self) == (Process { tasks: final(self).tasks, ..*old(self) })
                &&& final(kernel).spec_work() == spec_work_inc(old(kernel).spec_work())
                &&& crate::sched::unchanged_but_work(*old(kernel), *final(kernel))
            },
            old(self).spec_is_active() && !r ==> {
                &&& final(self).tasks@ == old(self).tasks@
                &&& final(self).debug.dropped_upcall_count == spec_usize_inc(
                    old(self).debug.dropped_upcall_count,
                )
                &&& *final(self) == (Process { debug: final(self).debug, ..*old(self) })
                &&& final(self).debug == (ProcessDebug {
                    dropped_upcall_count: final(self).debug.dropped_upcall_count,
                    ..old(self).debug
                })
                &&& *final(kernel) == *old(kernel)
            },
    {
        if !self.is_active() {
            return false;
        }
        let queued = self.tasks.enqueue(task);
        if queued {
            kernel.increment_work();
        } else {
            if self.debug.dropped_upcall_count < usize::MAX {
                self.debug.dropped_upcall_count = self.debug.dropped_upcall_count + 1;
            }
        }
        queued
    }

    fn dequeue_task(&mut self, kernel: &mut Kernel) -> (r: Option<Task>)
        ensures
            old(self).wf() ==> final(self).wf(),
            r is Some <==> old(self).tasks@.len() > 0,
            r matches Some(t) ==> {
                &&& t == old(self).tasks@[0]
                &&& final(self).tasks@ == old(self).tasks@.drop_first()
                &&& *final(self) == (Process { tasks: final(self).tasks, ..*old(self) })
                &&& final(kernel).spec_work() == spec_work_dec(old(kernel).spec_work())
                &&& crate::sched::unchanged_but_work(*old(kernel), *final(kernel))
            },
            r is None ==> *final(self) == *old(self) && *final(kernel) == *old(kernel),
    {
        let t = self.tasks.dequeue();
        match t {
            Some(task) => {
                kernel.decrement_work();
                Some(task)
            },
            None => None,
        }
    }

    fn remove_pending_upcalls(&mut self, kernel: &mut Kernel, upcall_id: UpcallId)
        ensures
            old(self).wf() ==> final(self).wf(),
            final(self).tasks@ == old(self).tasks@.filter(
                |t: Task| !spec_task_matches_upcall(t, upcall_id),
            ),
            *final(self) == (Process { tasks: final(self).tasks, ..*old(self) }),
            final(kernel).spec_work() == spec_work_sub(
                old(kernel).spec_work(),
                old(self).tasks@.len() - final(self).tasks@.len(),
            ),
            crate::sched::unchanged_but_work(*old(kernel), *final(kernel)),
    {
        let removed = self.tasks.remove_upcalls(upcall_id);
        let mut j: usize = 0;
        while j < removed
            invariant
                j <= removed,
                kernel.spec_work() == spec_work_sub(old(kernel).spec_work(), j as int),
                crate::sched::unchanged_but_work(*old(kernel), *kernel),
            decreases removed - j,
        {
            kernel.decrement_work();
            j = j + 1;
        }
    }

    fn set_yielded_state(&mut self, kernel: &mut Kernel)
        ensures
            old(self).wf() ==> final(self).wf(),
            *final(self) == (Process {
                state: spec_yield_transition(old(self).state),
                ..*old(self)
            }),
            final(kernel).spec_work() == spec_work_after_transition(
                old(kernel).spec_work(),
                old(self).state,
                spec_yield_transition(old(self).state),
            ),
            crate::sched::unchanged_but_work(*old(kernel), *final(kernel)),
    {
        match self.state {
            State::Running => self.set_state(kernel, State::Yielded),
            _ => (),
        }
    }

    fn stop(&mut self, kernel: &mut Kernel)
        ensures
            old(self).wf() ==> final(self).wf(),
            *final(self) == (Process {
                state: spec_stop_transition(old(self).state),
                ..*old(self)
            }),
            final(kernel).spec_work() == spec_work_after_transition(
                old(kernel).spec_work(),
                old(self).state,
                spec_stop_transition(old(self).state),
            ),
            crate::sched::unchanged_but_work(*old(kernel), *final(kernel)),
    {
        match self.state {
            State::Running => self.set_state(kernel, State::StoppedRunning),
            State::Yielded => self.set_state(kernel, State::StoppedYielded),
            _ => (),
        }
    }

    fn resume(&mut self, kernel: &mut Kernel)
        ensures
            old(self).wf() ==> final(self).wf(),
            *final(self) == (Process {
                state: spec_resume_transition(old(self).state),
                ..*old(self)
            }),
            final(kernel).spec_work() == spec_work_after_transition(
                old(kernel).spec_work(),
                old(self).state,
                spec_resume_transition(old(self).state),
            ),
            crate::sched::unchanged_but_work(*old(kernel), *final(kernel)),
    {
        match self.state {
            State::StoppedRunning => self.set_state(kernel, State::Running),
            State::StoppedYielded => self.set_state(kernel, State::Yielded),
            _ => (),
        }
    }

    fn debug_syscall_count(&self) -> (r: usize)
        ensures
            r == self.debug.syscall_count,
    {
        self.debug.syscall_count
    }

    fn debug_dropped_upcall_count(&self) -> (r: usize)
        ensures
            r == self.debug.dropped_upcall_count,
    {
        self.debug.dropped_upcall_count
    }

    fn debug_timeslice_expiration_count(&self) -> (r: usize)
        ensures
            r == self.debug.timeslice_expiration_count,
    {
        self.debug.timeslice_expiration_count
    }

    fn debug_timeslice_expired(&mut self)
        ensures
            final(self).debug.timeslice_expiration_count == spec_usize_inc(
                old(self).debug.timeslice_expiration_count,
            ),
            *final(self) == (Process { debug: final(self).debug, ..*old(self) }),
            final(self).debug == (ProcessDebug {
                timeslice_expiration_count: final(self).debug.timeslice_expiration_count,
                ..old(self).debug
            }),
    {
        if self.debug.timeslice_expiration_count < usize::MAX {
            self.debug.timeslice_expiration_count = self.debug.timeslice_expiration_count + 1;
        }
    }

    fn debug_syscall_called(&mut self, last_syscall: Syscall)
        ensures
            final(self).debug.syscall_count == spec_usize_inc(old(self).debug.syscall_count),
            final(self).debug.last_syscall == Some(last_syscall),
            *final(self) == (Process { debug: final(self).debug, ..*old(self) }),
            final(self).debug == (ProcessDebug {
                syscall_count: final(self).debug.syscall_count,
                last_syscall: Some(last_syscall),
                ..old(self).debug
            }),
    {
        if self.debug.syscall_count < usize::MAX {
            self.debug.syscall_count = self.debug.syscall_count + 1;
        }
        self.debug.last_syscall = Some(last_syscall);
    }
}

/// The generation the kernel hands out after `v`: one more, wrapping only
/// after `usize::MAX` generations.
pub open spec fn spec_identifier_next(v: usize) -> usize {
    if v < usize::MAX {
        (v + 1) as usize
    } else {
        0
    }
}

/// Saturating increment of a debug counter.
pub open spec fn spec_usize_inc(v: usize) -> usize {
    if v < usize::MAX {
        (v + 1) as usize
    } else {
        usize::MAX
    }
}


/// An opaque handle to a dynamic grant allocated from a process's grant
/// region, recorded as the distance from the end of process memory so that a
/// stale handle cannot be confused with a raw address.
#[derive(Copy, Clone, Debug, PartialEq, Eq, Structural)]
pub struct ProcessDynamicGrantIdentifer {
    offset: usize,
}

impl ProcessDynamicGrantIdentifer {
    /// Distance of the dynamic grant from the end of process memory.
    pub closed spec fn spec_offset(&self) -> usize {
        self.offset
    }
}

/// `x` rounded down to a multiple of `a`.
pub open spec fn spec_align_down(x: int, a: int) -> int {
    x - x % a
}

/// The alignment actually used for a grant allocation: at least two bytes,
/// so the low bit of every grant address is free.
pub open spec fn spec_grant_align(align: usize) -> int {
    if align < 2 {
        2
    } else {
        align as int
    }
}

/// The address at which a grant allocation of `size` bytes aligned to
/// `align` would land, below the current kernel memory break.
pub open spec fn spec_grant_candidate(kernel_break: usize, size: usize, align: usize) -> int {
    spec_align_down(kernel_break - size, spec_grant_align(align))
}

/// Whether `post` is `pre` with one extra protection region recorded: slot
/// `k` was free and now holds `region`, and nothing else changed but the
/// protection configuration.
pub open spec fn spec_region_recorded(pre: Process, post: Process, region: MpuRegion, k: int) -> bool {
    &&& 0 <= k < pre.mpu_regions@.len()
    &&& pre.mpu_regions@[k] is None
    &&& post.mpu_regions@ == pre.mpu_regions@.update(k, Some(region))
    &&& post == (Process { mpu_regions: post.mpu_regions, mpu_config: post.mpu_config, ..pre })
}

impl Process {
    /// Whether `[buf_start, buf_start + size)` lies entirely within the
    /// RAM currently exposed to the process: at or above the start of its
    /// memory window and below its break. Such a span is accessible to the
    /// process and cannot overlap the grant region.
    pub open spec fn spec_in_app_owned_memory(&self, buf_start: int, size: int) -> bool {
        &&& buf_start >= self.mem_start
        &&& buf_start + size <= self.app_break
    }

    /// Whether `[buf_start, buf_start + size)` lies entirely within the
    /// readable, non-protected span of the process's flash entry.
    pub open spec fn spec_in_app_flash_memory(&self, buf_start: int, size: int) -> bool {
        &&& buf_start >= self.flash_base + self.header.protected_size
        &&& buf_start + size <= self.spec_flash_end()
    }

    /// Check that the span lies within the RAM currently exposed to the
    /// process.
    pub fn in_app_owned_memory(&self, buf_start: usize, size: usize) -> (r: bool)
        ensures
            r == self.spec_in_app_owned_memory(buf_start as int, size as int),
    {
        match buf_start.checked_add(size) {
            Some(buf_end) => buf_start >= self.mem_start && buf_end <= self.app_break,
            None => false,
        }
    }

    /// Check that the span lies within the readable span of the process's
    /// flash.
    pub fn in_app_flash_memory(&self, buf_start: usize, size: usize) -> (r: bool)
        requires
            self.wf(),
        ensures
            r == self.spec_in_app_flash_memory(buf_start as int, size as int),
    {
        match buf_start.checked_add(size) {
            Some(buf_end) => buf_start >= self.flash_base + (self.header.protected_size as usize)
                && buf_end <= self.flash_base + self.flash_size,
            None => false,
        }
    }

    /// Move the application break to `new_break`, reallocating the
    /// protection region that covers application memory, and return the
    /// previous break.
    ///
    /// The move is rejected with `AddressOutOfBounds` if it would retract
    /// below the high-water mark of previously shared slices or leave the
    /// memory window, with `OutOfMemory` if it would cross into the kernel
    /// region or the protection unit cannot isolate the new boundary, and
    /// with `InactiveApp` on a process that cannot run again.
    pub fn brk<M: Mpu>(&mut self, mpu: &mut M, new_break: usize) -> (r: Result<usize, Error>)
        requires
            old(self).wf(),
        ensures
            final(self).wf(),
            !old(self).spec_is_active() ==> r == Err::<usize, Error>(Error::InactiveApp) && *final(self) == *old(self),
            old(self).spec_is_active() && (new_break < old(self).allow_high_water_mark || new_break
                >= old(self).spec_mem_end()) ==> r == Err::<usize, Error>(Error::AddressOutOfBounds)
                && *final(self) == *old(self),
            old(self).spec_is_active() && new_break >= old(self).allow_high_water_mark && new_break
                < old(self).spec_mem_end() && new_break > old(self).kernel_memory_break ==> r
                == Err::<usize, Error>(Error::OutOfMemory) && *final(self) == *old(self),
            old(self).spec_is_active() && new_break >= old(self).allow_high_water_mark && new_break
                < old(self).spec_mem_end() && new_break <= old(self).kernel_memory_break ==> {
                ||| (r == Ok::<usize, Error>(old(self).app_break) && *final(self) == (Process {
                    app_break: new_break,
                    mpu_config: final(self).mpu_config,
                    ..*old(self)
                }))
                ||| (r == Err::<usize, Error>(Error::OutOfMemory) && *final(self) == (Process {
                    mpu_config: final(self).mpu_config,
                    ..*old(self)
                }))
            },
            r is Ok ==> old(self).spec_is_active(),
    {
        if !self.is_active() {
            return Err(Error::InactiveApp);
        }
        if new_break < self.allow_high_water_mark || new_break >= self.mem_end() {
            return Err(Error::AddressOutOfBounds);
        }
        if new_break > self.kernel_memory_break {
            return Err(Error::OutOfMemory);
        }
        let updated = mpu.update_app_memory_region(
            &mut self.mpu_config,
            new_break,
            self.kernel_memory_break,
            Permissions::ReadWriteOnly,
        );
        match updated {
            Err(_) => Err(Error::OutOfMemory),
            Ok(_) => {
                let old_break = self.app_break;
                self.app_break = new_break;
                mpu.configure_mpu(&self.mpu_config, self.app_id);
                Ok(old_break)
            },
        }
    }

    /// Move the application break by `increment` bytes and return the
    /// previous break. Rejections are those of [`Process::brk`] for the
    /// break `app_break + increment`.
    pub fn sbrk<M: Mpu>(&mut self, mpu: &mut M, increment: isize) -> (r: Result<usize, Error>)
        requires
            old(self).wf(),
        ensures
            final(self).wf(),
            !old(self).spec_is_active() ==> r == Err::<usize, Error>(Error::InactiveApp) && *final(self) == *old(self),
            old(self).spec_is_active() && (old(self).app_break + increment < old(self).allow_high_water_mark || old(self).app_break + increment >= old(self).spec_mem_end())
                ==> r == Err::<usize, Error>(Error::AddressOutOfBounds) && *final(self) == *old(self),
            old(self).spec_is_active() && old(self).app_break + increment >= old(self).allow_high_water_mark && old(self).app_break + increment < old(self).spec_mem_end()
                ==> {
                ||| (r == Ok::<usize, Error>(old(self).app_break) && *final(self) == (Process {
                    app_break: (old(self).app_break + increment) as usize,
                    mpu_config: final(self).mpu_config,
                    ..*old(self)
                }))
                ||| (r == Err::<usize, Error>(Error::OutOfMemory) && *final(self) == (Process {
                    mpu_config: final(self).mpu_config,
                    ..*old(self)
                }))
            },
    {
        if !self.is_active() {
            return Err(Error::InactiveApp);
        }
        if increment >= 0 {
            match self.app_break.checked_add(increment as usize) {
                Some(new_break) => self.brk(mpu, new_break),
                None => Err(Error::AddressOutOfBounds),
            }
        } else {
            // `-(increment + 1) + 1` computes the magnitude without
            // overflowing on the most negative increment.
            let magnitude = ((-(increment + 1)) as usize) + 1;
            match self.app_break.checked_sub(magnitude) {
                Some(new_break) => self.brk(mpu, new_break),
                None => Err(Error::AddressOutOfBounds),
            }
        }
    }

    /// Validate `(buf_start_addr, size)` as a read-write span of the
    /// process's own RAM and record it as shared.
    ///
    /// A zero-length span is valid whatever its address — it revokes kernel
    /// access without granting any — and never moves the high-water mark.
    /// A valid non-empty span advances the high-water mark, which never
    /// moves down again until the process is restarted.
    pub fn build_readwrite_appslice(&mut self, buf_start_addr: usize, size: usize) -> (r: Result<
        ReadWriteAppSlice,
        ErrorCode,
    >)
        requires
            old(self).wf(),
        ensures
            final(self).wf(),
            !old(self).spec_is_active() ==> r == Err::<ReadWriteAppSlice, ErrorCode>(
                ErrorCode::FAIL,
            ) && *final(self) == *old(self),
            old(self).spec_is_active() && size == 0 ==> r == Ok::<ReadWriteAppSlice, ErrorCode>(
                ReadWriteAppSlice { addr: buf_start_addr, len: 0, app_id: old(self).app_id },
            ) && *final(self) == *old(self),
            old(self).spec_is_active() && size > 0 && old(self).spec_in_app_owned_memory(
                buf_start_addr as int,
                size as int,
            ) ==> r == Ok::<ReadWriteAppSlice, ErrorCode>(
                ReadWriteAppSlice { addr: buf_start_addr, len: size, app_id: old(self).app_id },
            ) && *final(self) == (Process {
                allow_high_water_mark: if buf_start_addr + size > old(self).allow_high_water_mark {
                    (buf_start_addr + size) as usize
                } else {
                    old(self).allow_high_water_mark
                },
                ..*old(self)
            }),
            old(self).spec_is_active() && size > 0 && !old(self).spec_in_app_owned_memory(
                buf_start_addr as int,
                size as int,
            ) ==> r == Err::<ReadWriteAppSlice, ErrorCode>(ErrorCode::INVAL) && *final(self)
                == *old(self),
            final(self).allow_high_water_mark >= old(self).allow_high_water_mark,
    {
        if !self.is_active() {
            return Err(ErrorCode::FAIL);
        }
        if size == 0 {
            return Ok(ReadWriteAppSlice::new(buf_start_addr, 0, self.app_id));
        }
        if self.in_app_owned_memory(buf_start_addr, size) {
            let buf_end_addr = buf_start_addr + size;
            if buf_end_addr > self.allow_high_water_mark {
                self.allow_high_water_mark = buf_end_addr;
            }
            Ok(ReadWriteAppSlice::new(buf_start_addr, size, self.app_id))
        } else {
            Err(ErrorCode::INVAL)
        }
    }

    /// Validate `(buf_start_addr, size)` as a read-only span of the
    /// process's own RAM or of the non-protected part of its flash, and
    /// record a RAM span as shared.
    ///
    /// A zero-length span is valid whatever its address. A valid span in
    /// RAM advances the high-water mark; a span in flash leaves it alone,
    /// since the mark tracks only process memory.
    pub fn build_readonly_appslice(&mut self, buf_start_addr: usize, size: usize) -> (r: Result<
        ReadOnlyAppSlice,
        ErrorCode,
    >)
        requires
            old(self).wf(),
        ensures
            final(self).wf(),
            !old(self).spec_is_active() ==> r == Err::<ReadOnlyAppSlice, ErrorCode>(ErrorCode::FAIL)
                && *final(self) == *old(self),
            old(self).spec_is_active() && size == 0 ==> r == Ok::<ReadOnlyAppSlice, ErrorCode>(
                ReadOnlyAppSlice { addr: buf_start_addr, len: 0, app_id: old(self).app_id },
            ) && *final(self) == *old(self),
            old(self).spec_is_active() && size > 0 && old(self).spec_in_app_owned_memory(
                buf_start_addr as int,
                size as int,
            ) ==> r == Ok::<ReadOnlyAppSlice, ErrorCode>(
                ReadOnlyAppSlice { addr: buf_start_addr, len: size, app_id: old(self).app_id },
            ) && *final(self) == (Process {
                allow_high_water_mark: if buf_start_addr + size > old(self).allow_high_water_mark {
                    (buf_start_addr + size) as usize
                } else {
                    old(self).allow_high_water_mark
                },
                ..*old(self)
            }),
            old(self).spec_is_active() && size > 0 && !old(self).spec_in_app_owned_memory(
                buf_start_addr as int,
                size as int,
            ) && old(self).spec_in_app_flash_memory(buf_start_addr as int, size as int) ==> r
                == Ok::<ReadOnlyAppSlice, ErrorCode>(
                ReadOnlyAppSlice { addr: buf_start_addr, len: size, app_id: old(self).app_id },
            ) && *final(self) == *old(self),
            old(self).spec_is_active() && size > 0 && !old(self).spec_in_app_owned_memory(
                buf_start_addr as int,
                size as int,
            ) && !old(self).spec_in_app_flash_memory(buf_start_addr as int, size as int) ==> r
                == Err::<ReadOnlyAppSlice, ErrorCode>(ErrorCode::INVAL) && *final(self) == *old(self),
            final(self).allow_high_water_mark >= old(self).allow_high_water_mark,
    {
        if !self.is_active() {
            return Err(ErrorCode::FAIL);
        }
        if size == 0 {
            return Ok(ReadOnlyAppSlice::new(buf_start_addr, 0, self.app_id));
        }
        if self.in_app_owned_memory(buf_start_addr, size) {
            let buf_end_addr = buf_start_addr + size;
            if buf_end_addr > self.allow_high_water_mark {
                self.allow_high_water_mark = buf_end_addr;
            }
            Ok(ReadOnlyAppSlice::new(buf_start_addr, size, self.app_id))
        } else if self.in_app_flash_memory(buf_start_addr, size) {
            Ok(ReadOnlyAppSlice::new(buf_start_addr, size, self.app_id))
        } else {
            Err(ErrorCode::INVAL)
        }
    }

    /// Whether the grant numbered `grant_num` has been allocated; `None` on
    /// an inactive process or an unknown grant number.
    pub fn grant_is_allocated(&self, grant_num: usize) -> (r: Option<bool>)
        ensures
            !self.spec_is_active() ==> r is None,
            self.spec_is_active() && grant_num >= self.grants@.len() ==> r is None,
            self.spec_is_active() && grant_num < self.grants@.len() ==> r == Some(
                self.grants@[grant_num as int].spec_is_allocated(),
            ),
    {
        if !self.is_active() {
            return None;
        }
        if grant_num >= self.grants.len() {
            return None;
        }
        match self.grants[grant_num] {
            GrantState::Empty => Some(false),
            _ => Some(true),
        }
    }

    /// Carve `size` bytes, aligned to `align` (at least two bytes, so the
    /// low bit of the address stays free), from the bottom of the kernel
    /// region, moving `kernel_memory_break` down.
    ///
    /// Fails when the allocation would cross the application break or the
    /// protection unit cannot isolate the new boundary; the break does not
    /// move on failure.
    fn allocate_in_grant_region_internal<M: Mpu>(&mut self, mpu: &mut M, size: usize, align: usize)
        -> (r: Option<usize>)
        requires
            old(self).wf(),
            align >= 1,
        ensures
            final(self).wf(),
            r matches Some(addr) ==> {
                &&& size <= old(self).kernel_memory_break
                &&& addr == spec_grant_candidate(old(self).kernel_memory_break, size, align)
                &&& old(self).app_break <= addr
                &&& addr + size <= old(self).kernel_memory_break
                &&& addr == final(self).kernel_memory_break
                &&& *final(self) == (Process {
                    kernel_memory_break: final(self).kernel_memory_break,
                    mpu_config: final(self).mpu_config,
                    ..*old(self)
                })
            },
            r is None ==> *final(self) == (Process {
                mpu_config: final(self).mpu_config,
                ..*old(self)
            }),
            size > old(self).kernel_memory_break ==> r is None,
            size <= old(self).kernel_memory_break && spec_grant_candidate(
                old(self).kernel_memory_break,
                size,
                align,
            ) < old(self).app_break ==> r is None,
    {
        let align2 = if align < 2 {
            2
        } else {
            align
        };
        match self.kernel_memory_break.checked_sub(size) {
            None => None,
            Some(unaligned) => {
                proof {
                    assert(unaligned % align2 <= unaligned) by (nonlinear_arith)
                        requires
                            align2 >= 1,
                    ;
                }
                let new_break = unaligned - (unaligned % align2);
                if new_break < self.app_break {
                    None
                } else {
                    let updated = mpu.update_app_memory_region(
                        &mut self.mpu_config,
                        self.app_break,
                        new_break,
                        Permissions::ReadWriteOnly,
                    );
                    match updated {
                        Err(_) => None,
                        Ok(_) => {
                            self.kernel_memory_break = new_break;
                            Some(new_break)
                        },
                    }
                }
            },
        }
    }

    /// Allocate the grant numbered `grant_num`, `size` bytes aligned to
    /// `align`, from the process's grant region, and record its address in
    /// the grant-pointer table.
    ///
    /// Fails, returning `None` and moving nothing, when the process is
    /// inactive, the grant number is not registered, the grant is already
    /// allocated, or there is no room between the kernel region and the
    /// application break. Reading the registered grant count freezes it.
    pub fn allocate_grant<M: Mpu>(
        &mut self,
        kernel: &mut Kernel,
        mpu: &mut M,
        grant_num: usize,
        size: usize,
        align: usize,
    ) -> (r: Option<usize>)
        requires
            old(self).wf(),
            align >= 1,
        ensures
            final(self).wf(),
            !old(self).spec_is_active() ==> r is None && *final(self) == *old(self) && *final(kernel) == *old(kernel),
            old(self).spec_is_active() ==> {
                &&& final(kernel).spec_grant_count() == old(kernel).spec_grant_count()
                &&& final(kernel).spec_grants_finalized()
                &&& final(kernel).spec_work() == old(kernel).spec_work()
                &&& final(kernel).spec_identifier_max() == old(kernel).spec_identifier_max()
                &&& final(kernel).spec_halted() == old(kernel).spec_halted()
            },
            r matches Some(addr) ==> {
                &&& old(self).spec_is_active()
                &&& grant_num < old(kernel).spec_grant_count()
                &&& grant_num < old(self).grants@.len()
                &&& old(self).grants@[grant_num as int] is Empty
                &&& addr == final(self).kernel_memory_break
                &&& addr == spec_grant_candidate(old(self).kernel_memory_break, size, align)
                &&& old(self).app_break <= addr && addr + size <= old(self).kernel_memory_break
                &&& final(self).grants@ == old(self).grants@.update(
                    grant_num as int,
                    GrantState::Allocated { addr },
                )
                &&& *final(self) == (Process {
                    kernel_memory_break: final(self).kernel_memory_break,
                    grants: final(self).grants,
                    mpu_config: final(self).mpu_config,
                    ..*old(self)
                })
            },
            r is None ==> *final(self) == (Process {
                mpu_config: final(self).mpu_config,
                ..*old(self)
            }),
            old(self).spec_is_active() && grant_num >= old(kernel).spec_grant_count() ==> r is None,
            old(self).spec_is_active() && grant_num < old(self).grants@.len() && old(self).grants@[grant_num as int].spec_is_allocated() ==> r is None,
    {
        if !self.is_active() {
            return None;
        }
        if grant_num >= kernel.get_grant_count_and_finalize() {
            return None;
        }
        match self.grant_is_allocated(grant_num) {
            Some(false) => (),
            _ => {
                return None;
            },
        }
        match self.allocate_in_grant_region_internal(mpu, size, align) {
            None => None,
            Some(grant_ptr) => {
                if grant_num < self.grants.len() {
                    self.grants.set(grant_num, GrantState::Allocated { addr: grant_ptr });
                    Some(grant_ptr)
                } else {
                    // Unreachable: `grant_is_allocated` accepted the number.
                    None
                }
            },
        }
    }

    /// Allocate `size` bytes aligned to `align` from the grant region
    /// without recording them in the grant-pointer table, for capsules that
    /// need extra process-specific memory. Returns an opaque identifier for
    /// re-entry together with the address.
    pub fn allocate_dynamic_grant<M: Mpu>(&mut self, mpu: &mut M, size: usize, align: usize) -> (r:
        Option<(ProcessDynamicGrantIdentifer, usize)>)
        requires
            old(self).wf(),
            align >= 1,
        ensures
            final(self).wf(),
            !old(self).spec_is_active() ==> r is None && *final(self) == *old(self),
            r matches Some((identifier, addr)) ==> {
                &&& addr == final(self).kernel_memory_break
                &&& addr == spec_grant_candidate(old(self).kernel_memory_break, size, align)
                &&& old(self).app_break <= addr && addr + size <= old(self).kernel_memory_break
                &&& identifier.spec_offset() == old(self).spec_mem_end() - addr
                &&& *final(self) == (Process {
                    kernel_memory_break: final(self).kernel_memory_break,
                    mpu_config: final(self).mpu_config,
                    ..*old(self)
                })
            },
            r is None ==> *final(self) == (Process {
                mpu_config: final(self).mpu_config,
                ..*old(self)
            }),
    {
        if !self.is_active() {
            return None;
        }
        match self.allocate_in_grant_region_internal(mpu, size, align) {
            None => None,
            Some(ptr) => {
                let identifier = self.create_dynamic_grant_identifier(ptr);
                Some((identifier, ptr))
            },
        }
    }

    /// The identifier under which a dynamic grant at `addr` is re-entered:
    /// its distance from the end of process memory.
    fn create_dynamic_grant_identifier(&self, addr: usize) -> (r: ProcessDynamicGrantIdentifer)
        requires
            self.wf(),
            self.mem_start <= addr <= self.spec_mem_end(),
        ensures
            r.spec_offset() == self.spec_mem_end() - addr,
    {
        let memory_end = self.mem_start + self.mem_size;
        ProcessDynamicGrantIdentifer { offset: memory_end - addr }
    }

    /// The address of the dynamic grant behind `identifier`; reverses
    /// `create_dynamic_grant_identifier`.
    fn get_dynamic_grant_address(&self, identifier: ProcessDynamicGrantIdentifer) -> (r: usize)
        requires
            self.wf(),
            identifier.spec_offset() <= self.mem_size,
        ensures
            r == self.spec_mem_end() - identifier.spec_offset(),
    {
        let memory_end = self.mem_start + self.mem_size;
        memory_end - identifier.offset
    }

    /// Enter the grant numbered `grant_num`: gain access to its memory and
    /// mark it borrowed.
    ///
    /// Errors on an inactive process, an unknown grant number, a grant not
    /// yet allocated, and — with `AlreadyInUse` — a grant already entered:
    /// grant access is exclusive and non-reentrant.
    pub fn enter_grant(&mut self, grant_num: usize) -> (r: Result<usize, Error>)
        requires
            old(self).wf(),
        ensures
            final(self).wf(),
            !old(self).spec_is_active() ==> r == Err::<usize, Error>(Error::InactiveApp) && *final(self) == *old(self),
            old(self).spec_is_active() && grant_num >= old(self).grants@.len() ==> r == Err::<
                usize,
                Error,
            >(Error::AddressOutOfBounds) && *final(self) == *old(self),
            old(self).spec_is_active() && grant_num < old(self).grants@.len() ==> match old(self).grants@[grant_num as int] {
                GrantState::Empty => r == Err::<usize, Error>(Error::KernelError) && *final(self)
                    == *old(self),
                GrantState::Entered { addr } => r == Err::<usize, Error>(Error::AlreadyInUse)
                    && *final(self) == *old(self),
                GrantState::Allocated { addr } => r == Ok::<usize, Error>(addr) && final(self).grants@ == old(self).grants@.update(
                    grant_num as int,
                    GrantState::Entered { addr },
                ) && *final(self) == (Process { grants: final(self).grants, ..*old(self) }),
            },
    {
        if !self.is_active() {
            return Err(Error::InactiveApp);
        }
        if grant_num >= self.grants.len() {
            return Err(Error::AddressOutOfBounds);
        }
        match self.grants[grant_num] {
            GrantState::Empty => Err(Error::KernelError),
            GrantState::Entered { addr: _ } => Err(Error::AlreadyInUse),
            GrantState::Allocated { addr } => {
                self.grants.set(grant_num, GrantState::Entered { addr });
                Ok(addr)
            },
        }
    }

    /// Enter a dynamic grant through the identifier its allocation
    /// returned.
    pub fn enter_dynamic_grant(&mut self, identifier: ProcessDynamicGrantIdentifer) -> (r: Result<
        usize,
        Error,
    >)
        requires
            old(self).wf(),
        ensures
            final(self).wf(),
            *final(self) == *old(self),
            !old(self).spec_is_active() ==> r == Err::<usize, Error>(Error::InactiveApp),
            old(self).spec_is_active() && identifier.spec_offset() > old(self).mem_size ==> r
                == Err::<usize, Error>(Error::AddressOutOfBounds),
            old(self).spec_is_active() && identifier.spec_offset() <= old(self).mem_size ==> r
                == Ok::<usize, Error>(
                (old(self).spec_mem_end() - identifier.spec_offset()) as usize,
            ),
    {
        if !self.is_active() {
            return Err(Error::InactiveApp);
        }
        if identifier.offset > self.mem_size {
            return Err(Error::AddressOutOfBounds);
        }
        Ok(self.get_dynamic_grant_address(identifier))
    }

    /// Leave the grant numbered `grant_num`, releasing the borrow that
    /// entering took. Does nothing on an inactive process, an unknown
    /// number, or a grant that is not entered.
    pub fn leave_grant(&mut self, grant_num: usize)
        requires
            old(self).wf(),
        ensures
            final(self).wf(),
            !old(self).spec_is_active() ==> *final(self) == *old(self),
            old(self).spec_is_active() && grant_num >= old(self).grants@.len() ==> *final(self)
                == *old(self),
            old(self).spec_is_active() && grant_num < old(self).grants@.len() ==> match old(self).grants@[grant_num as int] {
                GrantState::Entered { addr } => final(self).grants@ == old(self).grants@.update(
                    grant_num as int,
                    GrantState::Allocated { addr },
                ) && *final(self) == (Process { grants: final(self).grants, ..*old(self) }),
                _ => *final(self) == *old(self),
            },
    {
        if !self.is_active() {
            return;
        }
        if grant_num >= self.grants.len() {
            return;
        }
        match self.grants[grant_num] {
            GrantState::Entered { addr } => {
                self.grants.set(grant_num, GrantState::Allocated { addr });
            },
            _ => (),
        }
    }

    /// How many grants are allocated for this process, or `None` on an
    /// inactive process.
    pub fn grant_allocated_count(&self) -> (r: Option<usize>)
        ensures
            !self.spec_is_active() ==> r is None,
            self.spec_is_active() ==> r == Some(
                self.grants@.filter(|g: GrantState| g.spec_is_allocated()).len() as usize,
            ),
    {
        if !self.is_active() {
            return None;
        }
        let ghost pred = |g: GrantState| g.spec_is_allocated();
        let mut count: usize = 0;
        let mut i: usize = 0;
        proof {
            assert(self.grants@.subrange(0, 0) =~= Seq::<GrantState>::empty());
            reveal(Seq::filter);
        }
        while i < self.grants.len()
            invariant
                i <= self.grants@.len(),
                count == self.grants@.subrange(0, i as int).filter(pred).len(),
                count <= i,
                pred == (|g: GrantState| g.spec_is_allocated()),
            decreases self.grants@.len() - i,
        {
            let allocated = match self.grants[i] {
                GrantState::Empty => false,
                _ => true,
            };
            proof {
                let sub0 = self.grants@.subrange(0, i as int);
                let sub1 = self.grants@.subrange(0, i + 1);
                assert(sub1.drop_last() =~= sub0);
                assert(sub1.last() == self.grants@[i as int]);
                reveal(Seq::filter);
                sub0.lemma_filter_len(pred);
            }
            if allocated {
                count = count + 1;
            }
            i = i + 1;
        }
        proof {
            assert(self.grants@.subrange(0, self.grants@.len() as int) =~= self.grants@);
        }
        Some(count)
    }

    /// Load the process's protection configuration into the hardware.
    /// Meaningful only while the process is active.
    pub fn setup_mpu<M: Mpu>(&self, mpu: &mut M)
        requires
            self.spec_is_active(),
    {
        mpu.configure_mpu(&self.mpu_config, self.app_id);
    }

    /// Ask the protection unit for one more read-write region of at least
    /// `min_region_size` bytes inside the given unallocated span, and record
    /// it in one of the process's free region slots. Returns the region, or
    /// `None` when the unit refuses or every slot is taken. Meaningful only
    /// while the process is active.
    pub fn add_mpu_region<M: Mpu>(
        &mut self,
        mpu: &mut M,
        unallocated_memory_start: usize,
        unallocated_memory_size: usize,
        min_region_size: usize,
    ) -> (r: Option<MpuRegion>)
        requires
            old(self).spec_is_active(),
            old(self).wf(),
        ensures
            final(self).wf(),
            r matches Some(region) ==> exists|k: int|
                spec_region_recorded(*old(self), *final(self), region, k),
            r is None ==> *final(self) == (Process {
                mpu_config: final(self).mpu_config,
                ..*old(self)
            }),
    {
        let new_region = mpu.allocate_region(
            &mut self.mpu_config,
            unallocated_memory_start,
            unallocated_memory_size,
            min_region_size,
            Permissions::ReadWriteOnly,
        );
        match new_region {
            None => None,
            Some(region) => {
                let slot_count = self.mpu_regions.len();
                let mut k: usize = 0;
                let mut found: usize = slot_count;
                while k < slot_count
                    invariant
                        k <= slot_count,
                        slot_count == self.mpu_regions@.len(),
                        found <= slot_count,
                        found < slot_count ==> self.mpu_regions@[found as int] is None,
                    decreases slot_count - k,
                {
                    if found == slot_count {
                        let slot_free = match self.mpu_regions[k] {
                            None => true,
                            Some(_) => false,
                        };
                        if slot_free {
                            found = k;
                        }
                    }
                    k = k + 1;
                }
                if found < slot_count {
                    self.mpu_regions.set(found, Some(region));
                    proof {
                        assert(spec_region_recorded(*old(self), *self, region, found as int));
                    }
                    Some(region)
                } else {
                    // No free slot remains to record the region.
                    None
                }
            },
        }
    }

    /// Record where the process says its stack starts, if the address lies
    /// in its memory window; purely debugging information.
    pub fn update_stack_start_pointer(&mut self, stack_pointer: usize)
        requires
            old(self).wf(),
        ensures
            final(self).wf(),
            old(self).mem_start <= stack_pointer < old(self).spec_mem_end() ==> final(self).debug
                == (ProcessDebug {
                app_stack_start_pointer: Some(stack_pointer),
                app_stack_min_pointer: Some(stack_pointer),
                ..old(self).debug
            }) && *final(self) == (Process { debug: final(self).debug, ..*old(self) }),
            !(old(self).mem_start <= stack_pointer < old(self).spec_mem_end()) ==> *final(self)
                == *old(self),
    {
        if stack_pointer >= self.mem_start && stack_pointer < self.mem_end() {
            self.debug.app_stack_start_pointer = Some(stack_pointer);
            // The previous minimum belonged to the old stack placement.
            self.debug.app_stack_min_pointer = Some(stack_pointer);
        }
    }

    /// Record where the process says its heap starts, if the address lies
    /// in its memory window; purely debugging information.
    pub fn update_heap_start_pointer(&mut self, heap_pointer: usize)
        requires
            old(self).wf(),
        ensures
            final(self).wf(),
            old(self).mem_start <= heap_pointer < old(self).spec_mem_end() ==> final(self).debug
                == (ProcessDebug { app_heap_start_pointer: Some(heap_pointer), ..old(self).debug })
                && *final(self) == (Process { debug: final(self).debug, ..*old(self) }),
            !(old(self).mem_start <= heap_pointer < old(self).spec_mem_end()) ==> *final(self)
                == *old(self),
    {
        if heap_pointer >= self.mem_start && heap_pointer < self.mem_end() {
            self.debug.app_heap_start_pointer = Some(heap_pointer);
        }
    }

    /// Context-switch into the process and report why control returned —
    /// which syscall fired, a fault, timeslice expiry, or interruption —
    /// or `None` for an inactive process or an internal switch failure,
    /// which the caller turns into a fault.
    pub fn switch_to<C: Chip>(&mut self, chip: &mut C) -> (r: Option<ContextSwitchReason>)
        requires
            old(self).wf(),
        ensures
            final(self).wf(),
            !old(self).spec_is_active() ==> r is None && *final(self) == *old(self),
            *final(self) == (Process { debug: final(self).debug, ..*old(self) }),
            final(self).debug == (ProcessDebug {
                app_stack_min_pointer: final(self).debug.app_stack_min_pointer,
                ..old(self).debug
            }),
            old(self).debug.app_stack_min_pointer matches Some(m) ==> (final(self).debug.app_stack_min_pointer matches Some(m2) && m2 <= m),
    {
        if !self.is_active() {
            return None;
        }
        let (switch_reason, stack_pointer) = chip.switch_to_process(
            self.app_id,
            self.mem_start,
            self.app_break,
        );
        match stack_pointer {
            Some(sp) => {
                let lower = match self.debug.app_stack_min_pointer {
                    None => true,
                    Some(min) => sp < min,
                };
                if lower {
                    self.debug.app_stack_min_pointer = Some(sp);
                }
            },
            None => (),
        }
        switch_reason
    }
}


/// The one task a fresh or freshly restarted process starts with: a call of
/// the binary's init function, handed the entry point of the application
/// binary, the bounds of the memory window, and the initial break.
pub open spec fn spec_initial_task_of(p: Process) -> Task {
    Task::FunctionCall(
        FunctionCall {
            source: FunctionCallSource::Kernel,
            pc: (p.flash_base + p.header.init_fn_offset) as usize,
            argument0: (p.flash_base + p.header.protected_size) as usize,
            argument1: p.mem_start,
            argument2: p.mem_size,
            argument3: p.initial_app_break,
        },
    )
}

/// Every grant-pointer entry is empty, the table length unchanged.
pub open spec fn spec_cleared_grants(pre: Seq<GrantState>, post: Seq<GrantState>) -> bool {
    &&& post.len() == pre.len()
    &&& forall|i: int| 0 <= i < post.len() ==> post[i] is Empty
}

/// The work counter after a process is terminated from state `s` with
/// `tasks_len` tasks queued: each dropped task gives back one unit, and a
/// running process gives back the unit its execution held.
pub open spec fn spec_work_after_terminate(w: usize, tasks_len: int, s: State) -> usize {
    spec_work_after_transition(spec_work_sub(w, tasks_len), s, State::Terminated)
}

/// Whether `post` is `pre` terminated: no tasks queued, every grant
/// released, and the state moved to `new_state` (`Terminated`, or `Faulted`
/// when a fault policy keeps the process for inspection). Nothing else
/// changes.
pub open spec fn spec_terminated_shape(pre: Process, post: Process, new_state: State) -> bool {
    &&& post.tasks@.len() == 0
    &&& spec_cleared_grants(pre.grants@, post.grants@)
    &&& post.state == new_state
    &&& post == (Process { tasks: post.tasks, grants: post.grants, state: new_state, ..pre })
}

/// Whether `post` is `pre` successfully restarted: the same memory window,
/// flash entry, header and fault response, with the application and kernel
/// breaks back at the offsets computed at creation, the high-water mark
/// back at the window start, every grant released, exactly the initial
/// task queued, a fresh identifier in the same slot, and the restart
/// counted.
pub open spec fn spec_restarted_shape(pre: Process, post: Process) -> bool {
    &&& post.state is Unstarted
    &&& post.mem_start == pre.mem_start
    &&& post.mem_size == pre.mem_size
    &&& post.flash_base == pre.flash_base
    &&& post.flash_size == pre.flash_size
    &&& post.header == pre.header
    &&& post.fault_response == pre.fault_response
    &&& post.min_break_size == pre.min_break_size
    &&& post.initial_app_break == pre.initial_app_break
    &&& post.initial_kernel_memory_size == pre.initial_kernel_memory_size
    &&& post.app_break == pre.initial_app_break
    &&& post.kernel_memory_break == pre.spec_mem_end() - pre.initial_kernel_memory_size
    &&& post.allow_high_water_mark == pre.mem_start
    &&& spec_cleared_grants(pre.grants@, post.grants@)
    &&& post.tasks@ =~= seq![spec_initial_task_of(post)]
    &&& post.restart_count == spec_usize_inc(pre.restart_count)
    &&& post.app_id.index == pre.app_id.index
}

/// Whether `post` is `pre` after a restart that could not be carried out:
/// terminated (tasks dropped, grants released), with a fresh identifier and
/// reset debug counters, but no execution state — the process stays
/// inactive rather than retrying indefinitely.
pub open spec fn spec_restart_failed_shape(pre: Process, post: Process) -> bool {
    &&& post.state is Terminated
    &&& post.tasks@.len() == 0
    &&& spec_cleared_grants(pre.grants@, post.grants@)
    &&& post.app_id.index == pre.app_id.index
    &&& post == (Process {
        tasks: post.tasks,
        grants: post.grants,
        state: post.state,
        app_id: post.app_id,
        debug: post.debug,
        ..pre
    })
}

/// What `terminate` followed by `restart` guarantees, covering both the
/// restarted and the could-not-restart outcome, with the kernel's counters
/// adjusted accordingly.
pub open spec fn spec_try_restart_outcome(
    pre: Process,
    post: Process,
    kpre: Kernel,
    kpost: Kernel,
) -> bool {
    &&& kpost.spec_grant_count() == kpre.spec_grant_count()
    &&& kpost.spec_grants_finalized() == kpre.spec_grants_finalized()
    &&& kpost.spec_halted() == kpre.spec_halted()
    &&& post.app_id.identifier == kpre.spec_identifier_max()
    &&& kpost.spec_identifier_max() == spec_identifier_next(kpre.spec_identifier_max())
    &&& {
        ||| (spec_restarted_shape(pre, post) && kpost.spec_work() == spec_work_inc(
            spec_work_after_terminate(kpre.spec_work(), pre.tasks@.len() as int, pre.state),
        ))
        ||| (spec_restart_failed_shape(pre, post) && kpost.spec_work()
            == spec_work_after_terminate(kpre.spec_work(), pre.tasks@.len() as int, pre.state))
    }
}

/// The states a process can be left in by its fault response: faulted (kept
/// for inspection or given up on), terminated (a restart that could not be
/// carried out), or unstarted (successfully restarted).
pub open spec fn spec_post_fault_state(s: State) -> bool {
    s is Faulted || s is Terminated || s is Unstarted
}

/// What `set_fault_state` guarantees, by fault response:
/// - `Panic`: the process is marked faulted and the board halts;
/// - `Stop`: the process is terminated but marked faulted, kept for
///   inspection, and the board goes on;
/// - `Restart` with a policy that agrees: the process is terminated and
///   restarted (or left inactive if the restart could not be carried out);
/// - `Restart` with a policy that refuses: the process is terminated and
///   marked faulted, and a policy whose refusal is fatal halts the board.
pub open spec fn spec_fault_outcome(
    pre: Process,
    post: Process,
    kpre: Kernel,
    kpost: Kernel,
) -> bool {
    match pre.fault_response {
        FaultResponse::Panic => {
            &&& post == (Process { state: State::Faulted, ..pre })
            &&& kpost.spec_halted()
            &&& kpost.spec_work() == spec_work_after_transition(
                kpre.spec_work(),
                pre.state,
                State::Faulted,
            )
            &&& kpost.spec_grant_count() == kpre.spec_grant_count()
            &&& kpost.spec_grants_finalized() == kpre.spec_grants_finalized()
            &&& kpost.spec_identifier_max() == kpre.spec_identifier_max()
        },
        FaultResponse::Stop => {
            &&& spec_terminated_shape(pre, post, State::Faulted)
            &&& kpost.spec_work() == spec_work_after_terminate(
                kpre.spec_work(),
                pre.tasks@.len() as int,
                pre.state,
            )
            &&& kpost.spec_halted() == kpre.spec_halted()
            &&& kpost.spec_grant_count() == kpre.spec_grant_count()
            &&& kpost.spec_grants_finalized() == kpre.spec_grants_finalized()
            &&& kpost.spec_identifier_max() == kpre.spec_identifier_max()
        },
        FaultResponse::Restart(policy) => {
            if policy.spec_should_restart(pre.restart_count) {
                spec_try_restart_outcome(pre, post, kpre, kpost)
            } else {
                &&& spec_terminated_shape(pre, post, State::Faulted)
                &&& kpost.spec_work() == spec_work_after_terminate(
                    kpre.spec_work(),
                    pre.tasks@.len() as int,
                    pre.state,
                )
                &&& kpost.spec_halted() == (kpre.spec_halted()
                    || policy.spec_fatal_when_refused())
                &&& kpost.spec_grant_count() == kpre.spec_grant_count()
                &&& kpost.spec_grants_finalized() == kpre.spec_grants_finalized()
                &&& kpost.spec_identifier_max() == kpre.spec_identifier_max()
            }
        },
    }
}

impl Process {
    /// Release every grant-pointer entry.
    fn grant_ptrs_reset(&mut self)
        ensures
            spec_cleared_grants(old(self).grants@, final(self).grants@),
            *final(self) == (Process { grants: final(self).grants, ..*old(self) }),
    {
        let count = self.grants.len();
        let mut i: usize = 0;
        while i < count
            invariant
                i <= count,
                count == self.grants@.len(),
                *self == (Process { grants: self.grants, ..*old(self) }),
                self.grants@.len() == old(self).grants@.len(),
                forall|j: int| 0 <= j < i ==> self.grants@[j] is Empty,
            decreases count - i,
        {
            self.grants.set(i, GrantState::Empty);
            i = i + 1;
        }
    }

    /// Stop and clear the process, putting it in the `Terminated` state:
    /// its queued tasks are dropped (with the work they represent), its
    /// grants are released, and the scheduler will not run it again. Its
    /// memory layout and debug information stay intact.
    pub fn terminate(&mut self, kernel: &mut Kernel, _completion_code: u32)
        requires
            old(self).wf(),
        ensures
            final(self).wf(),
            spec_terminated_shape(*old(self), *final(self), State::Terminated),
            final(kernel).spec_work() == spec_work_after_terminate(
                old(kernel).spec_work(),
                old(self).tasks@.len() as int,
                old(self).state,
            ),
            crate::sched::unchanged_but_work(*old(kernel), *final(kernel)),
    {
        let tasks_len = self.tasks.len();
        let mut dropped: usize = 0;
        while dropped < tasks_len
            invariant
                dropped <= tasks_len,
                kernel.spec_work() == spec_work_sub(old(kernel).spec_work(), dropped as int),
                crate::sched::unchanged_but_work(*old(kernel), *kernel),
            decreases tasks_len - dropped,
        {
            kernel.decrement_work();
            dropped = dropped + 1;
        }
        self.tasks.empty();
        self.grant_ptrs_reset();
        self.set_state(kernel, State::Terminated);
    }

    /// Restart the process: reset all of its state and queue it to run its
    /// init function again. Assumes the process was just terminated but
    /// keeps its flash entry and memory window.
    ///
    /// A restart that cannot re-establish the process's protection regions
    /// or its execution context returns the error and leaves the process
    /// terminated rather than retrying indefinitely.
    fn restart<C: Chip, M: Mpu>(&mut self, kernel: &mut Kernel, chip: &mut C, mpu: &mut M) -> (r:
        Result<(), ErrorCode>)
        requires
            old(self).wf(),
            old(self).tasks@.len() == 0,
            old(self).state is Terminated,
        ensures
            final(self).wf(),
            final(kernel).spec_grant_count() == old(kernel).spec_grant_count(),
            final(kernel).spec_grants_finalized() == old(kernel).spec_grants_finalized(),
            final(kernel).spec_halted() == old(kernel).spec_halted(),
            final(self).app_id.identifier == old(kernel).spec_identifier_max(),
            final(kernel).spec_identifier_max() == spec_identifier_next(
                old(kernel).spec_identifier_max(),
            ),
            r is Ok ==> {
                &&& final(self).state is Unstarted
                &&& final(self).app_break == old(self).initial_app_break
                &&& final(self).kernel_memory_break == old(self).spec_mem_end() - old(self).initial_kernel_memory_size
                &&& final(self).allow_high_water_mark == old(self).mem_start
                &&& final(self).tasks@ =~= seq![spec_initial_task_of(*final(self))]
                &&& final(self).restart_count == spec_usize_inc(old(self).restart_count)
                &&& final(self).app_id.index == old(self).app_id.index
                &&& final(self).grants == old(self).grants
                &&& *final(self) == (Process {
                    state: final(self).state,
                    app_break: final(self).app_break,
                    kernel_memory_break: final(self).kernel_memory_break,
                    allow_high_water_mark: final(self).allow_high_water_mark,
                    tasks: final(self).tasks,
                    restart_count: final(self).restart_count,
                    app_id: final(self).app_id,
                    debug: final(self).debug,
                    mpu_config: final(self).mpu_config,
                    ..*old(self)
                })
                &&& final(kernel).spec_work() == spec_work_inc(old(kernel).spec_work())
            },
            r is Err ==> {
                &&& final(self).state is Terminated
                &&& final(self).tasks@.len() == 0
                &&& final(self).app_id.index == old(self).app_id.index
                &&& *final(self) == (Process {
                    app_id: final(self).app_id,
                    debug: final(self).debug,
                    ..*old(self)
                })
                &&& final(kernel).spec_work() == old(kernel).spec_work()
            },
    {
        // The restarted process is in effect a new process, so it gets a
        // fresh identifier; stale identifiers held elsewhere stop matching.
        let old_index = self.app_id.index;
        let new_identifier = kernel.create_process_identifier();
        self.app_id = AppId::new(new_identifier, old_index);

        // Reset the debug state that is per-execution rather than
        // per-process.
        self.debug.syscall_count = 0;
        self.debug.last_syscall = None;
        self.debug.dropped_upcall_count = 0;
        self.debug.timeslice_expiration_count = 0;

        // Build a clean protection configuration with only the flash and
        // memory regions, committing nothing until every step has worked.
        let mut mpu_config = MpuConfig::new();
        let flash_region = mpu.allocate_region(
            &mut mpu_config,
            self.flash_base,
            self.flash_size,
            self.flash_size,
            Permissions::ReadExecuteOnly,
        );
        if flash_region.is_none() {
            // Unexpected, since the process ran before; leave it inactive.
            return Err(ErrorCode::FAIL);
        }

        let initial_app_size = self.initial_app_break - self.mem_start;
        let window = mpu.allocate_app_memory_region(
            &mut mpu_config,
            self.mem_start,
            self.mem_size,
            self.mem_size,
            initial_app_size,
            self.initial_kernel_memory_size,
            Permissions::ReadWriteOnly,
        );
        let ok = match window {
            // The window must be exactly the one the process already owns.
            Some((start, size)) => start == self.mem_start && size == self.mem_size,
            None => false,
        };
        if !ok {
            return Err(ErrorCode::NOMEM);
        }

        let app_brk = self.initial_app_break;
        if chip.initialize_process(self.app_id, self.mem_start, app_brk).is_err() {
            return Err(ErrorCode::RESERVE);
        }

        // Every step worked: commit the reset layout.
        self.mpu_config = mpu_config;
        self.app_break = app_brk;
        self.kernel_memory_break = (self.mem_start + self.mem_size)
            - self.initial_kernel_memory_size;
        self.allow_high_water_mark = self.mem_start;
        self.set_state(kernel, State::Unstarted);
        if self.restart_count < usize::MAX {
            self.restart_count = self.restart_count + 1;
        }

        let init_fn = self.flash_base + (self.header.init_fn_offset as usize);
        let flash_app_start = self.flash_base + (self.header.protected_size as usize);
        let _ = self.tasks.enqueue(
            Task::FunctionCall(
                FunctionCall {
                    source: FunctionCallSource::Kernel,
                    pc: init_fn,
                    argument0: flash_app_start,
                    argument1: self.mem_start,
                    argument2: self.mem_size,
                    argument3: self.app_break,
                },
            ),
        );
        kernel.increment_work();
        Ok(())
    }

    /// Terminate the process and attempt to restart it with a fresh
    /// identifier; if the restart cannot be carried out the process is left
    /// terminated.
    pub fn try_restart<C: Chip, M: Mpu>(
        &mut self,
        kernel: &mut Kernel,
        chip: &mut C,
        mpu: &mut M,
        completion_code: u32,
    )
        requires
            old(self).wf(),
        ensures
            final(self).wf(),
            spec_try_restart_outcome(*old(self), *final(self), *old(kernel), *final(kernel)),
    {
        self.terminate(kernel, completion_code);
        let _res = self.restart(kernel, chip, mpu);
    }

    /// Apply the configured fault response to this process: halt the board,
    /// restart the process under its policy, or stop it and keep its state
    /// for inspection. See [`spec_fault_outcome`] for the exact guarantee of
    /// each arm.
    pub fn set_fault_state<C: Chip, M: Mpu>(&mut self, kernel: &mut Kernel, chip: &mut C, mpu: &mut M)
        requires
            old(self).wf(),
        ensures
            final(self).wf(),
            spec_fault_outcome(*old(self), *final(self), *old(kernel), *final(kernel)),
    {
        match self.fault_response {
            FaultResponse::Panic => {
                self.set_state(kernel, State::Faulted);
                kernel.halt();
            },
            FaultResponse::Restart(policy) => {
                if policy.decide(self.restart_count) {
                    self.try_restart(kernel, chip, mpu, COMPLETION_FAULT);
                } else {
                    self.terminate(kernel, COMPLETION_FAULT);
                    self.set_state(kernel, State::Faulted);
                    let fatal = match policy {
                        RestartPolicy::ThresholdThenPanic(_) => true,
                        _ => false,
                    };
                    if fatal {
                        kernel.halt();
                    }
                }
            },
            FaultResponse::Stop => {
                self.terminate(kernel, COMPLETION_FAULT);
                self.set_state(kernel, State::Faulted);
            },
        }
    }

    /// Deliver the return value the process sees when it resumes after a
    /// syscall. If the boundary cannot write it — for example because the
    /// process shrank its accessible memory below its own stack — the
    /// process is faulted.
    pub fn set_syscall_return_value<C: Chip, M: Mpu>(
        &mut self,
        kernel: &mut Kernel,
        chip: &mut C,
        mpu: &mut M,
        return_value: crate::error::ReturnCode,
    )
        requires
            old(self).wf(),
        ensures
            final(self).wf(),
            (*final(self) == *old(self) && *final(kernel) == *old(kernel)) || (spec_fault_outcome(
                *old(self),
                *final(self),
                *old(kernel),
                *final(kernel),
            ) && spec_post_fault_state(final(self).state)),
    {
        let delivered = chip.set_syscall_return_value(
            self.app_id,
            self.mem_start,
            self.app_break,
            return_value,
        );
        match delivered {
            Ok(_) => (),
            Err(_) => {
                // The boundary could not write the value; all that is left
                // is to fault the process.
                self.set_fault_state(kernel, chip, mpu);
            },
        }
    }

    /// Arrange for the process to execute `callback` when it next runs and
    /// mark it runnable. If the boundary cannot set the call up — for
    /// example because the process is out of stack — the process is faulted.
    pub fn set_process_function<C: Chip, M: Mpu>(
        &mut self,
        kernel: &mut Kernel,
        chip: &mut C,
        mpu: &mut M,
        callback: FunctionCall,
    )
        requires
            old(self).wf(),
        ensures
            final(self).wf(),
            (*final(self) == (Process { state: State::Running, ..*old(self) }) && final(kernel).spec_work() == spec_work_after_transition(
                old(kernel).spec_work(),
                old(self).state,
                State::Running,
            ) && crate::sched::unchanged_but_work(*old(kernel), *final(kernel)))
                || (spec_fault_outcome(*old(self), *final(self), *old(kernel), *final(kernel))
                && spec_post_fault_state(final(self).state)),
    {
        let prepared = chip.set_process_function(
            self.app_id,
            self.mem_start,
            self.app_break,
            callback,
        );
        match prepared {
            Ok(_) => {
                self.set_state(kernel, State::Running);
            },
            Err(_) => {
                self.set_fault_state(kernel, chip, mpu);
            },
        }
    }
}


/// Bytes of the kernel-owned region a new process needs before any grant is
/// allocated: the grant-pointer table for `grant_count` grant types, the
/// task ring buffer, and the control block itself.
pub open spec fn spec_kernel_overhead(grant_count: usize) -> int {
    grant_count * GRANT_POINTER_BYTES + TASK_RING_BYTES + PROCESS_STRUCT_BYTES
}

/// Whether an application entry's kernel-owned flash prefix and init
/// function offset both lie within the entry of `entry_len` bytes.
pub open spec fn spec_entry_offsets_fit(hdr: Seq<u8>, entry_len: int) -> bool {
    &&& crate::header::spec_le32(hdr, 12) <= entry_len
    &&& crate::header::spec_le32(hdr, 16) <= entry_len
}

/// Whether the application entry declares no fixed flash address, or its
/// binary — past the kernel-owned prefix — sits exactly at the declared one.
pub open spec fn spec_entry_fixed_flash_ok(hdr: Seq<u8>, flash_base: int) -> bool {
    ||| crate::header::spec_le32(hdr, 24) == crate::header::NO_FIXED_ADDRESS
    ||| flash_base + crate::header::spec_le32(hdr, 12) == crate::header::spec_le32(hdr, 24)
}

/// Whether the entry's header marks an enabled application.
pub open spec fn spec_entry_is_enabled_app(hdr: Seq<u8>) -> bool {
    &&& crate::header::spec_flag_app(crate::header::spec_le32(hdr, 8))
    &&& crate::header::spec_flag_enabled(crate::header::spec_le32(hdr, 8))
}

impl Process {
    /// Build a process from one flash entry, carving its memory window out
    /// of `remaining_memory`.
    ///
    /// Returns the process together with the memory left over above its
    /// window. A padding or disabled entry yields no process and the intact
    /// memory span. Errors are returned, never panicked: a header that
    /// cannot be parsed, flash or memory that cannot hold what the header
    /// asks, a protection unit that cannot cover the entry, or a fixed
    /// address that cannot be honored.
    ///
    /// On success the window satisfies the layout invariant with the
    /// application break at least the requested RAM above the window start,
    /// exactly the kernel overhead below the window end reserved, every
    /// grant empty, and exactly the initial task queued as one unit of
    /// outstanding work.
    pub fn create<C: Chip, M: Mpu>(
        kernel: &mut Kernel,
        chip: &mut C,
        mpu: &mut M,
        app_flash: &[u8],
        flash_base: usize,
        header_length: usize,
        app_version: u16,
        remaining_memory: MemoryRegion,
        fault_response: FaultResponse,
        index: usize,
    ) -> (r: Result<(Option<Process>, MemoryRegion), ProcessLoadError>)
        requires
            remaining_memory.wf(),
            flash_base + app_flash@.len() <= usize::MAX,
        ensures
            final(kernel).spec_grant_count() == old(kernel).spec_grant_count(),
            final(kernel).spec_halted() == old(kernel).spec_halted(),
            r matches Ok((opt, unused)) ==> unused.wf() && unused.spec_end()
                == remaining_memory.spec_end() && unused.start >= remaining_memory.start,
            r matches Ok((Some(p), unused)) ==> {
                &&& p.wf()
                &&& p.state is Unstarted
                &&& p.header.is_app && p.header.enabled
                &&& p.app_id.index == index
                &&& p.restart_count == 0
                &&& p.fault_response == fault_response
                &&& p.flash_base == flash_base
                &&& p.flash_size == app_flash@.len()
                &&& remaining_memory.start <= p.mem_start
                &&& p.spec_mem_end() <= remaining_memory.spec_end()
                &&& unused.start == p.spec_mem_end()
                &&& p.app_break - p.mem_start >= p.header.minimum_ram_size
                &&& p.spec_mem_end() - p.kernel_memory_break == spec_kernel_overhead(
                    old(kernel).spec_grant_count(),
                )
                &&& p.app_break == p.initial_app_break
                &&& p.initial_kernel_memory_size == spec_kernel_overhead(
                    old(kernel).spec_grant_count(),
                )
                &&& p.allow_high_water_mark == p.mem_start
                &&& p.grants@.len() == old(kernel).spec_grant_count()
                &&& spec_cleared_grants(p.grants@, p.grants@)
                &&& p.tasks@ =~= seq![spec_initial_task_of(p)]
                &&& final(kernel).spec_work() == spec_work_inc(old(kernel).spec_work())
                &&& final(kernel).spec_grants_finalized()
            },
            r matches Ok((None, unused)) ==> unused == remaining_memory && final(kernel).spec_work()
                == old(kernel).spec_work(),
            header_length > app_flash@.len() ==> r == Err::<
                (Option<Process>, MemoryRegion),
                ProcessLoadError,
            >(ProcessLoadError::NotEnoughFlash),
            header_length <= app_flash@.len() ==> ({
                let hdr = app_flash@.subrange(0, header_length as int);
                let entry_len = app_flash@.len() as int;
                &&& ((r matches Err(e) && e is HeaderParseFailure)
                    <==> !crate::header::spec_parse_ok(hdr))
                &&& (crate::header::spec_parse_ok(hdr) ==> {
                    let is_app = crate::header::spec_flag_app(crate::header::spec_le32(hdr, 8));
                    &&& (r == Err::<(Option<Process>, MemoryRegion), ProcessLoadError>(
                        ProcessLoadError::NotEnoughFlash,
                    ) <==> is_app && !spec_entry_offsets_fit(hdr, entry_len))
                    &&& ((r matches Err(e) && e is IncorrectFlashAddress) <==> is_app
                        && spec_entry_offsets_fit(hdr, entry_len) && !spec_entry_fixed_flash_ok(
                        hdr,
                        flash_base as int,
                    ))
                    &&& ((r matches Ok((opt, unused)) && opt is None)
                        <==> !spec_entry_is_enabled_app(hdr) && (is_app ==> spec_entry_offsets_fit(
                        hdr,
                        entry_len,
                    ) && spec_entry_fixed_flash_ok(hdr, flash_base as int)))
                    &&& ((r matches Ok((opt, unused)) && opt is Some) ==> spec_entry_is_enabled_app(
                        hdr,
                    ) && spec_entry_offsets_fit(hdr, entry_len) && spec_entry_fixed_flash_ok(
                        hdr,
                        flash_base as int,
                    ))
                })
            }),
    {
        if header_length > app_flash.len() {
            return Err(ProcessLoadError::NotEnoughFlash);
        }
        let header_flash = vstd::slice::slice_subrange(app_flash, 0, header_length);

        // Parse the full header; a header that does not parse fails the
        // entry right here.
        let header = match parse_header(header_flash, app_version) {
            Ok(h) => h,
            Err(reason) => {
                return Err(ProcessLoadError::HeaderParseFailure { reason });
            },
        };

        if header.is_app {
            // An application's kernel-owned prefix and init function must
            // lie inside the entry.
            if header.protected_size as usize > app_flash.len() || header.init_fn_offset as usize
                > app_flash.len() {
                return Err(ProcessLoadError::NotEnoughFlash);
            }
            // If the header requires the binary to sit at a fixed flash
            // address, catch a mismatch early. The address in the header
            // refers to the application binary, after the protected prefix.
            match header.fixed_address_flash {
                Some(fixed_flash_start) => {
                    let actual = flash_base + (header.protected_size as usize);
                    if actual != fixed_flash_start as usize {
                        let actual_address = #[verifier::truncate] (actual as u32);
                        return Err(
                            ProcessLoadError::IncorrectFlashAddress {
                                actual_address,
                                expected_address: fixed_flash_start,
                            },
                        );
                    }
                },
                None => (),
            }
        }

        // A padding entry, or an application that is not enabled, is
        // skipped: no process, and the memory span stays whole for the next
        // candidate.
        if !header.is_app || !header.enabled {
            return Ok((None, remaining_memory));
        }

        // Allocate a read-execute protection region covering exactly the
        // flash entry.
        let mut mpu_config = MpuConfig::new();
        let flash_region = mpu.allocate_region(
            &mut mpu_config,
            flash_base,
            app_flash.len(),
            app_flash.len(),
            Permissions::ReadExecuteOnly,
        );
        if flash_region.is_none() {
            return Err(ProcessLoadError::MpuInvalidFlashLength);
        }

        // Size the kernel-owned part of the window: the grant-pointer
        // table (freezing the grant count), the task ring, and the control
        // block.
        let grant_ptrs_num = kernel.get_grant_count_and_finalize();
        let grant_ptrs_offset = match grant_ptrs_num.checked_mul(GRANT_POINTER_BYTES) {
            Some(v) => v,
            None => {
                return Err(ProcessLoadError::NotEnoughMemory);
            },
        };
        let initial_kernel_memory_size = match grant_ptrs_offset.checked_add(
            TASK_RING_BYTES + PROCESS_STRUCT_BYTES,
        ) {
            Some(v) => v,
            None => {
                return Err(ProcessLoadError::NotEnoughMemory);
            },
        };

        // The application-accessible span starts at the larger of what the
        // binary asks for and what the context-switch implementation needs
        // to enter the process at all.
        let min_process_memory_size = chip.initial_process_app_brk_size();
        let process_ram_requested_size = header.minimum_ram_size as usize;
        let min_process_ram_size = if process_ram_requested_size > min_process_memory_size {
            process_ram_requested_size
        } else {
            min_process_memory_size
        };
        let min_total_memory_size = match min_process_ram_size.checked_add(
            initial_kernel_memory_size,
        ) {
            Some(v) => v,
            None => {
                return Err(ProcessLoadError::NotEnoughMemory);
            },
        };

        // If the binary requires its memory window at a fixed address,
        // skip forward to it; an address behind us cannot be honored.
        let remaining_memory = match header.fixed_address_ram {
            Some(fixed_memory_start) => {
                let fixed = fixed_memory_start as usize;
                if fixed == remaining_memory.start {
                    remaining_memory
                } else if fixed > remaining_memory.start {
                    let diff = fixed - remaining_memory.start;
                    if diff > remaining_memory.size {
                        let span_end = remaining_memory.start + remaining_memory.size;
                        let last = if span_end > 0 {
                            span_end - 1
                        } else {
                            0
                        };
                        let actual_address = #[verifier::truncate] (last as u32);
                        return Err(
                            ProcessLoadError::MemoryAddressMismatch {
                                actual_address,
                                expected_address: fixed_memory_start,
                            },
                        );
                    }
                    MemoryRegion { start: fixed, size: remaining_memory.size - diff }
                } else {
                    let actual_address = #[verifier::truncate] (remaining_memory.start as u32);
                    return Err(
                        ProcessLoadError::MemoryAddressMismatch {
                            actual_address,
                            expected_address: fixed_memory_start,
                        },
                    );
                }
            },
            None => remaining_memory,
        };

        // Ask the protection unit for the process's memory window, and hold
        // what it returns against the span we offered.
        let window = mpu.allocate_app_memory_region(
            &mut mpu_config,
            remaining_memory.start,
            remaining_memory.size,
            min_total_memory_size,
            min_process_ram_size,
            initial_kernel_memory_size,
            Permissions::ReadWriteOnly,
        );
        let (app_memory_start, app_memory_size) = match window {
            Some(w) => w,
            None => {
                return Err(ProcessLoadError::NotEnoughMemory);
            },
        };
        let window_end = match app_memory_start.checked_add(app_memory_size) {
            Some(e) => e,
            None => {
                return Err(ProcessLoadError::InternalError);
            },
        };
        if app_memory_start < remaining_memory.start || window_end > remaining_memory.start
            + remaining_memory.size || app_memory_size < min_total_memory_size {
            return Err(ProcessLoadError::InternalError);
        }

        // A fixed memory address must now be matched exactly.
        match header.fixed_address_ram {
            Some(fixed_memory_start) => {
                if app_memory_start != fixed_memory_start as usize {
                    let actual_address = #[verifier::truncate] (app_memory_start as u32);
                    return Err(
                        ProcessLoadError::MemoryAddressMismatch {
                            actual_address,
                            expected_address: fixed_memory_start,
                        },
                    );
                }
            },
            None => (),
        }

        // Lay the window out: the application region at the bottom, the
        // kernel region at the top, the unused gap between.
        let initial_app_brk = app_memory_start + min_process_ram_size;
        let kernel_memory_break = window_end - initial_kernel_memory_size;
        let initial_allow_high_water_mark = app_memory_start;

        // The grant-pointer table starts with every entry empty.
        let mut grants: Vec<GrantState> = Vec::new();
        let mut g: usize = 0;
        while g < grant_ptrs_num
            invariant
                g <= grant_ptrs_num,
                grants@.len() == g,
                forall|j: int| 0 <= j < g ==> grants@[j] is Empty,
            decreases grant_ptrs_num - g,
        {
            grants.push(GrantState::Empty);
            g = g + 1;
        }

        let unique_identifier = kernel.create_process_identifier();
        let app_id = AppId::new(unique_identifier, index);

        // Let the context-switch implementation set the process up; a
        // failure here is unexpected and fails the load.
        if chip.initialize_process(app_id, app_memory_start, initial_app_brk).is_err() {
            return Err(ProcessLoadError::InternalError);
        }

        let mut tasks = TaskQueue::new();
        let init_fn = flash_base + (header.init_fn_offset as usize);
        let flash_app_start_addr = flash_base + (header.protected_size as usize);
        let _ = tasks.enqueue(
            Task::FunctionCall(
                FunctionCall {
                    source: FunctionCallSource::Kernel,
                    pc: init_fn,
                    argument0: flash_app_start_addr,
                    argument1: app_memory_start,
                    argument2: app_memory_size,
                    argument3: initial_app_brk,
                },
            ),
        );

        let mut mpu_regions: Vec<Option<MpuRegion>> = Vec::new();
        let mut m: usize = 0;
        while m < MPU_REGION_SLOTS
            invariant
                m <= MPU_REGION_SLOTS,
                mpu_regions@.len() == m,
            decreases MPU_REGION_SLOTS - m,
        {
            mpu_regions.push(None);
            m = m + 1;
        }

        let fixed_address_flash = header.fixed_address_flash;
        let fixed_address_ram = header.fixed_address_ram;
        let process = Process {
            app_id,
            mem_start: app_memory_start,
            mem_size: app_memory_size,
            kernel_memory_break,
            app_break: initial_app_brk,
            allow_high_water_mark: initial_allow_high_water_mark,
            flash_base,
            flash_size: app_flash.len(),
            header,
            state: State::Unstarted,
            fault_response,
            mpu_config,
            mpu_regions,
            tasks,
            grants,
            restart_count: 0,
            debug: ProcessDebug::new(fixed_address_flash, fixed_address_ram),
            min_break_size: min_process_memory_size,
            initial_app_break: initial_app_brk,
            initial_kernel_memory_size,
        };

        // The initial task is one unit of outstanding work.
        kernel.increment_work();

        let unused = MemoryRegion {
            start: window_end,
            size: (remaining_memory.start + remaining_memory.size) - window_end,
        };
        Ok((Some(process), unused))
    }
}


/// The arena of process slots a board provides: each slot may hold one
/// process, and schedulers refer to processes by slot index.
pub struct ProcessSlots {
    slots: Vec<Option<Process>>,
}

impl View for ProcessSlots {
    type V = Seq<Option<Process>>;

    closed spec fn view(&self) -> Seq<Option<Process>> {
        self.slots@
    }
}

impl ProcessSlots {
    /// Every process held in a slot satisfies the layout invariant.
    pub open spec fn wf(&self) -> bool {
        forall|i: int|
            0 <= i < self@.len() ==> (#[trigger] self@[i] matches Some(p) ==> p.wf())
    }

    /// `count` empty slots.
    pub fn new(count: usize) -> (r: ProcessSlots)
        ensures
            r@.len() == count,
            forall|i: int| 0 <= i < count ==> r@[i] is None,
            r.wf(),
    {
        let mut slots: Vec<Option<Process>> = Vec::new();
        let mut i: usize = 0;
        while i < count
            invariant
                i <= count,
                slots@.len() == i,
                forall|j: int| 0 <= j < i ==> slots@[j] is None,
            decreases count - i,
        {
            slots.push(None);
            i = i + 1;
        }
        ProcessSlots { slots }
    }

    /// How many slots there are.
    pub fn len(&self) -> (r: usize)
        ensures
            r == self@.len(),
    {
        self.slots.len()
    }

    /// Whether the slot holds a process.
    pub fn is_occupied(&self, index: usize) -> (r: bool)
        ensures
            r == (index < self@.len() && self@[index as int] is Some),
    {
        if index < self.slots.len() {
            match self.slots[index] {
                Some(_) => true,
                None => false,
            }
        } else {
            false
        }
    }

    /// Take the process out of the slot, leaving the slot empty; the caller
    /// puts it back with [`ProcessSlots::put`] when done.
    pub fn take(&mut self, index: usize) -> (r: Option<Process>)
        ensures
            index < old(self)@.len() ==> r == old(self)@[index as int] && final(self)@ == old(self)@.update(index as int, None),
            index >= old(self)@.len() ==> r is None && *final(self) == *old(self),
            final(self)@.len() == old(self)@.len(),
            old(self).wf() ==> final(self).wf() && (r matches Some(p) ==> p.wf()),
    {
        if index < self.slots.len() {
            let p = self.slots.remove(index);
            self.slots.insert(index, None);
            proof {
                assert(self.slots@ =~= old(self)@.update(index as int, None));
            }
            p
        } else {
            None
        }
    }

    /// Put a process (or emptiness) into the slot.
    pub fn put(&mut self, index: usize, process: Option<Process>)
        requires
            index < old(self)@.len(),
        ensures
            final(self)@ == old(self)@.update(index as int, process),
            old(self).wf() && (process matches Some(p) ==> p.wf()) ==> final(self).wf(),
    {
        self.slots.set(index, process);
    }

    /// Borrow the process identified by `appid`, provided the slot still
    /// holds that generation.
    ///
    /// An identifier kept from before a restart or termination carries a
    /// stale generation: it matches no process and the lookup fails cleanly,
    /// rather than reaching the fresh process that reuses the slot.
    pub fn get_by_appid(&self, appid: AppId) -> (r: Option<&Process>)
        ensures
            r matches Some(p) ==> self@[appid.index as int] == Some(*p) && p.app_id == appid,
            r is None <==> !(appid.index < self@.len() && (self@[appid.index as int] matches Some(
                p,
            ) && p.app_id == appid)),
    {
        match self.get(appid.index) {
            Some(p) => {
                if p.app_id.identifier == appid.identifier && p.app_id.index == appid.index {
                    Some(p)
                } else {
                    None
                }
            },
            None => None,
        }
    }

    /// Borrow the process in the slot, if any.
    pub fn get(&self, index: usize) -> (r: Option<&Process>)
        ensures
            (index < self@.len() && self@[index as int] is Some) <==> r is Some,
            r matches Some(p) ==> self@[index as int] == Some(*p),
    {
        if index < self.slots.len() {
            match &self.slots[index] {
                Some(p) => Some(p),
                None => None,
            }
        } else {
            None
        }
    }
}

impl crate::sched::ProcessContainer for ProcessSlots {
    fn len(&self) -> (r: usize)
        ensures
            r == self@.len(),
    {
        self.slots.len()
    }

    fn active(&self) -> (r: usize)
        ensures
            r == self@.filter(|s: Option<Process>| s is Some).len(),
    {
        let ghost pred = |s: Option<Process>| s is Some;
        let mut count: usize = 0;
        let mut i: usize = 0;
        proof {
            assert(self.slots@.subrange(0, 0) =~= Seq::<Option<Process>>::empty());
            reveal(Seq::filter);
        }
        while i < self.slots.len()
            invariant
                i <= self.slots@.len(),
                count == self.slots@.subrange(0, i as int).filter(pred).len(),
                count <= i,
                pred == (|s: Option<Process>| s is Some),
            decreases self.slots@.len() - i,
        {
            let occupied = match &self.slots[i] {
                Some(_) => true,
                None => false,
            };
            proof {
                let sub0 = self.slots@.subrange(0, i as int);
                let sub1 = self.slots@.subrange(0, i + 1);
                assert(sub1.drop_last() =~= sub0);
                assert(sub1.last() == self.slots@[i as int]);
                reveal(Seq::filter);
                sub0.lemma_filter_len(pred);
            }
            if occupied {
                count = count + 1;
            }
            i = i + 1;
        }
        proof {
            assert(self.slots@.subrange(0, self.slots@.len() as int) =~= self.slots@);
        }
        count
    }
}

/// Whether the first entry of the image is a complete, enabled application
/// that the loader must either load into slot zero or fail on: a consistent
/// version-2 header whose entry fits the image and parses as an enabled
/// application with its offsets inside the entry and its fixed flash
/// address, if any, matching `flash_base`.
pub open spec fn spec_first_entry_loads(flash: Seq<u8>, flash_base: int) -> bool {
    let hl = crate::header::spec_le16(flash, 2);
    let el = crate::header::spec_le32(flash, 4);
    let hdr = flash.subrange(0, hl);
    &&& flash.len() >= 8
    &&& crate::header::spec_version(flash) == 2
    &&& crate::header::spec_lengths_consistent(flash)
    &&& el <= flash.len()
    &&& crate::header::spec_parse_ok(hdr)
    &&& spec_entry_is_enabled_app(hdr)
    &&& spec_entry_offsets_fit(hdr, el)
    &&& spec_entry_fixed_flash_ok(hdr, flash_base)
}

/// Every process in a slot lies wholly below `addr`.
pub open spec fn spec_slots_below(slots: Seq<Option<Process>>, addr: int) -> bool {
    forall|j: int|
        0 <= j < slots.len() ==> match #[trigger] slots[j] {
            Some(p) => p.spec_mem_end() <= addr,
            None => true,
        }
}

/// The memory windows of the processes are pairwise disjoint, ordered by
/// slot: each process's window ends at or before the next one starts, so no
/// two processes ever share a byte of RAM.
pub open spec fn spec_slots_disjoint(slots: Seq<Option<Process>>) -> bool {
    forall|j1: int, j2: int|
        0 <= j1 < j2 < slots.len() ==> match (#[trigger] slots[j1], #[trigger] slots[j2]) {
            (Some(p1), Some(p2)) => p1.spec_mem_end() <= p2.mem_start,
            _ => true,
        }
}

/// Load processes from a flash image into an array of fresh process slots.
///
/// Processes are found by walking the image's binary headers back-to-back
/// from `app_flash_base`. Each discovered, enabled application is given
/// memory out of `app_memory` — lower addresses first, so the windows of
/// distinct processes never overlap — until the image, the memory, or the
/// slots run out, and is stored in the slot matching its discovery order.
/// Every created process handles faults with `fault_response`.
///
/// Discovery ends without error at the end of the image or at a header that
/// cannot be parsed at all (the end-of-list marker); headers that are
/// recognizably padding are skipped by their declared length. An entry that
/// declares more flash than the image holds fails the load with
/// `NotEnoughFlash`; anything memory cannot hold fails it too — in every
/// case the processes already created stay in their slots.
pub fn load_processes<C: Chip, M: Mpu>(
    kernel: &mut Kernel,
    chip: &mut C,
    mpu: &mut M,
    app_flash: &[u8],
    app_flash_base: usize,
    app_memory: MemoryRegion,
    slots: &mut ProcessSlots,
    fault_response: FaultResponse,
) -> (r: Result<(), ProcessLoadError>)
    requires
        app_memory.wf(),
        app_flash_base + app_flash@.len() <= usize::MAX,
        forall|i: int| 0 <= i < old(slots)@.len() ==> old(slots)@[i] is None,
    ensures
        final(slots).wf(),
        final(slots)@.len() == old(slots)@.len(),
        forall|i: int|
            0 <= i < final(slots)@.len() ==> (#[trigger] final(slots)@[i] matches Some(p)
                ==> p.wf() && p.app_id.index == i && p.state is Unstarted),
        spec_slots_disjoint(final(slots)@),
        final(kernel).spec_grant_count() == old(kernel).spec_grant_count(),
        final(kernel).spec_halted() == old(kernel).spec_halted(),
        app_flash@.len() < 8 ==> r is Ok && final(slots)@ == old(slots)@ && *final(kernel) == *old(kernel),
        app_flash@.len() >= 8 && crate::header::spec_version(app_flash@) != 2 ==> r is Ok
            && final(slots)@ == old(slots)@ && *final(kernel) == *old(kernel),
        old(slots)@.len() > 0 && app_flash@.len() >= 8 && crate::header::spec_version(app_flash@)
            == 2 && crate::header::spec_le32(app_flash@, 4) > app_flash@.len() ==> r == Err::<
            (),
            ProcessLoadError,
        >(ProcessLoadError::NotEnoughFlash) && final(slots)@ == old(slots)@,
        old(slots)@.len() > 0 && spec_first_entry_loads(app_flash@, app_flash_base as int) && r
            is Ok ==> final(slots)@[0] is Some,
{
    let slot_count = slots.len();
    let mut flash_offset: usize = 0;
    let mut remaining_memory = app_memory;
    let mut i: usize = 0;

    while i < slot_count
        invariant
            i <= slot_count,
            slot_count == slots@.len(),
            slots@.len() == old(slots)@.len(),
            forall|j: int|
                0 <= j < slots@.len() ==> (#[trigger] slots@[j] matches Some(p) ==> p.wf()
                    && p.app_id.index == j && p.state is Unstarted),
            spec_slots_below(slots@, remaining_memory.start as int),
            spec_slots_disjoint(slots@),
            forall|j: int| i <= j < slots@.len() ==> slots@[j] is None,
            flash_offset <= app_flash@.len(),
            app_flash_base + app_flash@.len() <= usize::MAX,
            remaining_memory.wf(),
            kernel.spec_grant_count() == old(kernel).spec_grant_count(),
            kernel.spec_halted() == old(kernel).spec_halted(),
            i == 0 ==> flash_offset == 0 && slots@ == old(slots)@ && *kernel == *old(kernel),
            i > 0 ==> app_flash@.len() >= 8,
            i > 0 ==> crate::header::spec_version(app_flash@) == 2,
            i > 0 ==> crate::header::spec_le32(app_flash@, 4) <= app_flash@.len(),
            spec_first_entry_loads(app_flash@, app_flash_base as int) && i > 0 ==> slots@[0]
                is Some,
        decreases slot_count - i,
    {
        // Fewer than eight bytes left cannot hold another header: the end
        // of the image, not an error.
        if app_flash.len() - flash_offset < 8 {
            return Ok(());
        }
        let lengths_slice = vstd::slice::slice_subrange(app_flash, flash_offset, flash_offset + 8);
        proof {
            if flash_offset == 0 {
                assert(crate::header::spec_version(lengths_slice@) == crate::header::spec_version(
                    app_flash@,
                ));
                assert(crate::header::spec_le16(lengths_slice@, 2) == crate::header::spec_le16(
                    app_flash@,
                    2,
                ));
                assert(crate::header::spec_le32(lengths_slice@, 4) == crate::header::spec_le32(
                    app_flash@,
                    4,
                ));
            }
        }

        // Decode the entry's version and lengths. An unparsable prefix is
        // the end-of-list marker; an invalid version-2 header is padding to
        // skip by its declared length.
        let (version, header_length, entry_length) = match parse_header_lengths(lengths_slice) {
            Ok((v, hl, el)) => (v, hl, el),
            Err(InitialParseError::InvalidHeader { entry_length }) => (0u16, 0u16, entry_length),
            Err(InitialParseError::UnableToParse) => {
                return Ok(());
            },
        };

        // The image must hold the whole entry the header describes.
        let entry_length = entry_length as usize;
        if entry_length > app_flash.len() - flash_offset {
            return Err(ProcessLoadError::NotEnoughFlash);
        }
        let entry_flash = vstd::slice::slice_subrange(
            app_flash,
            flash_offset,
            flash_offset + entry_length,
        );
        let entry_base = app_flash_base + flash_offset;

        // The next candidate sits immediately after this entry.
        let ghost entry_offset = flash_offset;
        flash_offset = flash_offset + entry_length;

        if header_length > 0 {
            proof {
                if entry_offset == 0 && spec_first_entry_loads(
                    app_flash@,
                    app_flash_base as int,
                ) {
                    let hl = crate::header::spec_le16(app_flash@, 2);
                    assert(entry_flash@ =~= app_flash@.subrange(0, entry_length as int));
                    assert(entry_flash@.subrange(0, hl) =~= app_flash@.subrange(0, hl));
                }
            }
            let created = Process::create(
                kernel,
                chip,
                mpu,
                entry_flash,
                entry_base,
                header_length as usize,
                version,
                remaining_memory,
                fault_response,
                i,
            )?;
            let (process_option, unused_memory) = created;
            match process_option {
                Some(process) => {
                    slots.put(i, Some(process));
                },
                None => (),
            }
            remaining_memory = unused_memory;
        }
        i = i + 1;
    }
    Ok(())
}

/// The addresses and sizes that describe one process's memory map, with the
/// counters worth showing beside it: what a board prints when it inspects or
/// crashes a process.
#[derive(Copy, Clone, Debug, PartialEq, Eq, Structural)]
pub struct MemoryMapSnapshot {
    /// First address of the flash entry.
    pub flash_start: usize,
    /// One past the last address of the flash entry.
    pub flash_end: usize,
    /// Bytes of kernel-owned flash at the start of the entry.
    pub flash_protected_size: usize,
    /// First address of the application binary within the entry.
    pub flash_app_start: usize,
    /// Bytes of the application binary.
    pub flash_app_size: usize,
    /// First address of the process's RAM window.
    pub sram_start: usize,
    /// One past the last address of the RAM window.
    pub sram_end: usize,
    /// Lowest address of the grant region.
    pub sram_grant_start: usize,
    /// Bytes between the grant region start and the window end.
    pub sram_grant_size: usize,
    /// The application break.
    pub sram_heap_end: usize,
    /// Where the process said its heap starts, if it did.
    pub sram_heap_start: Option<usize>,
    /// Where the process said its stack starts, if it did.
    pub sram_stack_start: Option<usize>,
    /// The lowest stack pointer seen, if any.
    pub sram_stack_bottom: Option<usize>,
    /// How many tasks are queued.
    pub events_queued: usize,
    /// How many syscalls the process has made.
    pub syscall_count: usize,
    /// The most recent syscall, if any.
    pub last_syscall: Option<Syscall>,
    /// How many upcalls were dropped on a full queue.
    pub dropped_upcall_count: usize,
    /// How many times the process has been restarted.
    pub restart_count: usize,
    /// The process's current state.
    pub state: State,
}

impl Process {
    /// The process's memory map and counters, for a board to display.
    pub fn memory_map(&self) -> (r: MemoryMapSnapshot)
        requires
            self.wf(),
        ensures
            r.flash_start == self.flash_base,
            r.flash_end == self.spec_flash_end(),
            r.flash_protected_size == self.header.protected_size,
            r.flash_app_start == self.flash_base + self.header.protected_size,
            r.flash_app_size == self.spec_flash_end() - r.flash_app_start,
            r.sram_start == self.mem_start,
            r.sram_end == self.spec_mem_end(),
            r.sram_grant_start == self.kernel_memory_break,
            r.sram_grant_size == self.spec_mem_end() - self.kernel_memory_break,
            r.sram_heap_end == self.app_break,
            r.sram_heap_start == self.debug.app_heap_start_pointer,
            r.sram_stack_start == self.debug.app_stack_start_pointer,
            r.sram_stack_bottom == self.debug.app_stack_min_pointer,
            r.events_queued == self.tasks@.len(),
            r.syscall_count == self.debug.syscall_count,
            r.last_syscall == self.debug.last_syscall,
            r.dropped_upcall_count == self.debug.dropped_upcall_count,
            r.restart_count == self.restart_count,
            r.state == self.state,
    {
        let flash_end = self.flash_base + self.flash_size;
        let flash_app_start = self.flash_base + (self.header.protected_size as usize);
        let sram_end = self.mem_start + self.mem_size;
        MemoryMapSnapshot {
            flash_start: self.flash_base,
            flash_end,
            flash_protected_size: self.header.protected_size as usize,
            flash_app_start,
            flash_app_size: flash_end - flash_app_start,
            sram_start: self.mem_start,
            sram_end,
            sram_grant_start: self.kernel_memory_break,
            sram_grant_size: sram_end - self.kernel_memory_break,
            sram_heap_end: self.app_break,
            sram_heap_start: self.debug.app_heap_start_pointer,
            sram_stack_start: self.debug.app_stack_start_pointer,
            sram_stack_bottom: self.debug.app_stack_min_pointer,
            events_queued: self.tasks.len(),
            syscall_count: self.debug.syscall_count,
            last_syscall: self.debug.last_syscall,
            dropped_upcall_count: self.debug.dropped_upcall_count,
            restart_count: self.restart_count,
            state: self.state,
        }
    }
}


/// The memory-layout invariant of every live process: the application
/// region, the unused gap, and the kernel region partition its window,
/// `mem_start <= app_break <= kernel_memory_break <= mem_end`, with the
/// high-water mark of shared slices inside the application region. Every
/// operation that moves a break — `brk`, `sbrk`, `allocate_grant`,
/// `terminate`-and-`restart` — ensures `wf`, so the chain holds after each.
pub proof fn lemma_memory_layout_invariant(p: Process)
    requires
        p.wf(),
    ensures
        p.mem_start <= p.allow_high_water_mark,
        p.allow_high_water_mark <= p.app_break,
        p.app_break <= p.kernel_memory_break,
        p.kernel_memory_break <= p.spec_mem_end(),
{
}

/// Stopping is idempotent: stopping an already-stopped (or otherwise
/// unaffected) process changes nothing, so calling `stop` twice in a row
/// leaves the same state as calling it once.
pub proof fn lemma_stop_idempotent(s: State)
    ensures
        spec_stop_transition(spec_stop_transition(s)) == spec_stop_transition(s),
{
}

/// Resuming is a no-op on any process that is not stopped: only the two
/// stopped states move, every other state is returned unchanged.
pub proof fn lemma_resume_non_stopped_noop(s: State)
    requires
        !(s is StoppedRunning),
        !(s is StoppedYielded),
    ensures
        spec_resume_transition(s) == s,
{
}

/// Stop and resume are inverses on the states they affect: resuming a
/// stopped process restores exactly the state it was stopped in.
pub proof fn lemma_resume_undoes_stop(s: State)
    requires
        s is Running || s is Yielded,
    ensures
        spec_resume_transition(spec_stop_transition(s)) == s,
{
}

} // verus!
