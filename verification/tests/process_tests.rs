//! Tests of the process control block: creation layout, break adjustment,
//! slice validation, grants, the task queue, and the state machine.

use kernel_core::error::{Error, ErrorCode, ReturnCode};
use kernel_core::platform::Chip;
use kernel_core::process::{
    AlwaysRestart, FaultResponse, MemoryRegion, Process, ProcessType, RestartPolicy, State,
    ThresholdRestart, ThresholdRestartThenPanic, GRANT_POINTER_BYTES, PROCESS_STRUCT_BYTES,
    TASK_QUEUE_LEN, TASK_RING_BYTES,
};
use kernel_core::sched::Kernel;
use kernel_core::task::{
    AppId, ContextSwitchReason, FunctionCall, FunctionCallSource, Task, UpcallId,
};

struct SimChip {
    min_brk: usize,
    switch_reason: Option<ContextSwitchReason>,
}

impl SimChip {
    fn new() -> SimChip {
        SimChip { min_brk: 128, switch_reason: Some(ContextSwitchReason::TimesliceExpired) }
    }
}

impl Chip for SimChip {
    fn service_pending_interrupts(&mut self) {}

    fn has_pending_interrupts(&mut self) -> bool {
        false
    }

    fn initial_process_app_brk_size(&mut self) -> usize {
        self.min_brk
    }

    fn initialize_process(&mut self, _app: AppId, _mem_start: usize, _app_break: usize) -> Result<(), ()> {
        Ok(())
    }

    fn set_syscall_return_value(
        &mut self,
        _app: AppId,
        _mem_start: usize,
        _app_break: usize,
        _value: ReturnCode,
    ) -> Result<(), ()> {
        Ok(())
    }

    fn set_process_function(
        &mut self,
        _app: AppId,
        _mem_start: usize,
        _app_break: usize,
        _callback: FunctionCall,
    ) -> Result<(), ()> {
        Ok(())
    }

    fn switch_to_process(
        &mut self,
        _app: AppId,
        _mem_start: usize,
        _app_break: usize,
    ) -> (Option<ContextSwitchReason>, Option<usize>) {
        (self.switch_reason, None)
    }
}

fn push_le16(v: &mut Vec<u8>, x: u16) {
    v.push((x & 0xFF) as u8);
    v.push((x >> 8) as u8);
}

fn push_le32(v: &mut Vec<u8>, x: u32) {
    v.push((x & 0xFF) as u8);
    v.push(((x >> 8) & 0xFF) as u8);
    v.push(((x >> 16) & 0xFF) as u8);
    v.push(((x >> 24) & 0xFF) as u8);
}

/// One enabled application entry of `total_length` bytes asking for
/// `min_ram` bytes of RAM.
fn app_entry(total_length: u32, min_ram: u32) -> Vec<u8> {
    let mut e = Vec::new();
    push_le16(&mut e, 2);
    push_le16(&mut e, 36);
    push_le32(&mut e, total_length);
    push_le32(&mut e, 3);
    push_le32(&mut e, 36); // protected size: the header itself
    push_le32(&mut e, 64); // init function offset
    push_le32(&mut e, min_ram);
    push_le32(&mut e, 0xFFFF_FFFF);
    push_le32(&mut e, 0xFFFF_FFFF);
    push_le32(&mut e, 0);
    while e.len() < total_length as usize {
        e.push(0);
    }
    e
}

const FLASH_BASE: usize = 0x0004_0000;
const ARENA_START: usize = 0x2000_0000;

/// A kernel with `grants` grant types registered and one process created
/// from a 4096-byte arena.
fn make_process(grants: usize, min_ram: u32, response: FaultResponse) -> (Kernel, SimChip, Process, MemoryRegion) {
    let mut kernel = Kernel::new();
    for _ in 0..grants {
        kernel.create_grant();
    }
    let mut chip = SimChip::new();
    let entry = app_entry(1024, min_ram);
    let arena = MemoryRegion { start: ARENA_START, size: 4096 };
    let (created, unused) = Process::create(
        &mut kernel,
        &mut chip,
        &mut (),
        &entry,
        FLASH_BASE,
        36,
        2,
        arena,
        response,
        0,
    )
    .unwrap();
    (kernel, chip, created.unwrap(), unused)
}

#[test]
fn creation_lays_out_the_window() {
    // A process asking for 2048 bytes of RAM, with a 64-byte grant table,
    // loaded into a 4096-byte arena.
    let (kernel, _chip, p, unused) = make_process(16, 2048, FaultResponse::Stop);
    let overhead = 16 * GRANT_POINTER_BYTES + TASK_RING_BYTES + PROCESS_STRUCT_BYTES;
    assert_eq!(overhead, 64 + TASK_RING_BYTES + PROCESS_STRUCT_BYTES);
    assert_eq!(p.mem_start, ARENA_START);
    // The model's protection unit rounds the window up to a power of two,
    // here filling the whole 4096-byte arena.
    assert_eq!(p.mem_size, 4096);
    // The application break sits at least the requested RAM above the start.
    assert!(p.app_break - p.mem_start >= 2048);
    assert_eq!(p.app_break - p.mem_start, 2048);
    // Exactly the kernel overhead is reserved below the window end.
    assert_eq!(p.mem_end() - p.kernel_memory_break(), overhead);
    // The initial task is queued as one unit of outstanding work.
    assert_eq!(p.tasks.len(), 1);
    assert!(!kernel.processes_blocked());
    assert_eq!(p.get_state(), State::Unstarted);
    assert_eq!(p.get_restart_count(), 0);
    // The rest of the arena is left for the next process.
    assert_eq!(unused.start, p.mem_end());
    assert_eq!(unused.start + unused.size, ARENA_START + 4096);
    // Address accessors agree with the layout.
    assert_eq!(p.flash_start(), FLASH_BASE);
    assert_eq!(p.flash_end(), FLASH_BASE + 1024);
    assert_eq!(p.flash_non_protected_start(), FLASH_BASE + 36);
}

#[test]
fn creation_respects_chip_minimum() {
    // A tiny RAM request still leaves the chip's minimum accessible span.
    let (_kernel, _chip, p, _unused) = make_process(0, 16, FaultResponse::Stop);
    assert_eq!(p.app_break - p.mem_start, 128);
}

#[test]
fn memory_map_reports_the_layout() {
    let (_kernel, _chip, p, _unused) = make_process(16, 2048, FaultResponse::Stop);
    let map = p.memory_map();
    assert_eq!(map.sram_start, p.mem_start);
    assert_eq!(map.sram_end, p.mem_end());
    assert_eq!(map.sram_grant_start, p.kernel_memory_break);
    assert_eq!(map.sram_heap_end, p.app_break);
    assert_eq!(map.flash_start, FLASH_BASE);
    assert_eq!(map.flash_protected_size, 36);
    assert_eq!(map.flash_app_start, FLASH_BASE + 36);
    assert_eq!(map.events_queued, 1);
    assert_eq!(map.restart_count, 0);
    assert_eq!(map.state, State::Unstarted);
    assert_eq!(map.syscall_count, 0);
}

#[test]
fn brk_moves_within_bounds_and_reports_old_break() {
    let (_kernel, _chip, mut p, _unused) = make_process(0, 1024, FaultResponse::Stop);
    let old_break = p.app_break;
    let r = p.brk(&mut (), p.mem_start + 1500);
    assert_eq!(r, Ok(old_break));
    assert_eq!(p.app_break, p.mem_start + 1500);
    // The layout invariant holds after the move.
    assert!(p.mem_start <= p.app_break);
    assert!(p.app_break <= p.kernel_memory_break);
    assert!(p.kernel_memory_break <= p.mem_end());
}

#[test]
fn brk_rejects_out_of_bounds_and_kernel_region() {
    let (_kernel, _chip, mut p, _unused) = make_process(0, 1024, FaultResponse::Stop);
    // Beyond the memory window entirely.
    assert_eq!(p.brk(&mut (), p.mem_end()), Err(Error::AddressOutOfBounds));
    // Into the kernel region.
    assert_eq!(p.brk(&mut (), p.kernel_memory_break + 1), Err(Error::OutOfMemory));
    let unchanged = p.app_break;
    assert_eq!(p.app_break, unchanged);
}

#[test]
fn brk_fails_on_inactive_process() {
    let (mut kernel, _chip, mut p, _unused) = make_process(0, 1024, FaultResponse::Stop);
    p.terminate(&mut kernel, 0);
    assert_eq!(p.brk(&mut (), p.mem_start + 512), Err(Error::InactiveApp));
}

#[test]
fn sbrk_moves_by_signed_offsets() {
    let (_kernel, _chip, mut p, _unused) = make_process(0, 1024, FaultResponse::Stop);
    let first = p.app_break;
    assert_eq!(p.sbrk(&mut (), 100), Ok(first));
    assert_eq!(p.app_break, first + 100);
    assert_eq!(p.sbrk(&mut (), -50), Ok(first + 100));
    assert_eq!(p.app_break, first + 50);
    // Retreating below the window start is out of bounds.
    assert_eq!(p.sbrk(&mut (), -(4096 * 2)), Err(Error::AddressOutOfBounds));
}

#[test]
fn zero_length_slice_never_fails() {
    // A zero-length request is valid whatever the base pointer: it revokes
    // access without granting any.
    let (_kernel, _chip, mut p, _unused) = make_process(0, 1024, FaultResponse::Stop);
    let hwm_addresses = [0usize, 1, p.mem_start, p.mem_end(), usize::MAX];
    for addr in hwm_addresses {
        let rw = p.build_readwrite_appslice(addr, 0).unwrap();
        assert_eq!(rw.addr, addr);
        assert_eq!(rw.len, 0);
        let ro = p.build_readonly_appslice(addr, 0).unwrap();
        assert_eq!(ro.addr, addr);
        assert_eq!(ro.len, 0);
    }
}

#[test]
fn slices_validate_against_app_owned_memory() {
    let (_kernel, _chip, mut p, _unused) = make_process(0, 1024, FaultResponse::Stop);
    // In bounds: accepted.
    let slice = p.build_readwrite_appslice(p.mem_start + 16, 64).unwrap();
    assert_eq!(slice.addr, p.mem_start + 16);
    assert_eq!(slice.len, 64);
    // Crossing the break: rejected.
    assert_eq!(p.build_readwrite_appslice(p.app_break - 8, 16), Err(ErrorCode::INVAL));
    // Below the window: rejected.
    assert_eq!(p.build_readwrite_appslice(p.mem_start - 1, 4), Err(ErrorCode::INVAL));
}

#[test]
fn readonly_slice_accepts_flash() {
    let (_kernel, _chip, mut p, _unused) = make_process(0, 1024, FaultResponse::Stop);
    // The non-protected flash span is readable.
    let slice = p.build_readonly_appslice(FLASH_BASE + 100, 32).unwrap();
    assert_eq!(slice.addr, FLASH_BASE + 100);
    // The protected prefix is not.
    assert_eq!(p.build_readonly_appslice(FLASH_BASE, 8), Err(ErrorCode::INVAL));
}

#[test]
fn high_water_mark_blocks_break_retreat() {
    let (_kernel, _chip, mut p, _unused) = make_process(0, 1024, FaultResponse::Stop);
    let shared_end = p.mem_start + 600;
    p.build_readwrite_appslice(p.mem_start + 100, 500).unwrap();
    // Retreating below the shared span's end is rejected...
    assert_eq!(p.brk(&mut (), shared_end - 1), Err(Error::AddressOutOfBounds));
    // ...while the shared end itself is still allowed.
    assert!(p.brk(&mut (), shared_end).is_ok());
}

#[test]
fn grant_allocation_once_only() {
    // The same grant number allocates once and only once, and the failed
    // second attempt does not move the kernel break.
    let (mut kernel, _chip, mut p, _unused) = make_process(4, 1024, FaultResponse::Stop);
    let first = p.allocate_grant(&mut kernel, &mut (), 1, 64, 4);
    assert!(first.is_some());
    let addr = first.unwrap();
    assert_eq!(addr, p.kernel_memory_break);
    assert_eq!(addr % 4, 0);
    let break_after_first = p.kernel_memory_break;
    let second = p.allocate_grant(&mut kernel, &mut (), 1, 64, 4);
    assert_eq!(second, None);
    assert_eq!(p.kernel_memory_break, break_after_first);
    assert_eq!(p.grant_is_allocated(1), Some(true));
    assert_eq!(p.grant_is_allocated(0), Some(false));
    assert_eq!(p.grant_allocated_count(), Some(1));
}

#[test]
fn grant_allocation_rejects_unregistered_and_oversized() {
    let (mut kernel, _chip, mut p, _unused) = make_process(2, 1024, FaultResponse::Stop);
    // Only grants 0 and 1 are registered.
    assert_eq!(p.allocate_grant(&mut kernel, &mut (), 5, 16, 4), None);
    // An allocation that would cross the application break fails and moves
    // nothing.
    let break_before = p.kernel_memory_break;
    assert_eq!(p.allocate_grant(&mut kernel, &mut (), 0, 1 << 20, 4), None);
    assert_eq!(p.kernel_memory_break, break_before);
}

#[test]
fn grant_entry_is_exclusive() {
    let (mut kernel, _chip, mut p, _unused) = make_process(2, 1024, FaultResponse::Stop);
    // Entering an unallocated grant is an error, never a panic.
    assert_eq!(p.enter_grant(0), Err(Error::KernelError));
    // An unknown grant number is out of bounds.
    assert_eq!(p.enter_grant(7), Err(Error::AddressOutOfBounds));
    let addr = p.allocate_grant(&mut kernel, &mut (), 0, 32, 4).unwrap();
    assert_eq!(p.enter_grant(0), Ok(addr));
    // Entering an entered grant is refused: access is non-reentrant.
    assert_eq!(p.enter_grant(0), Err(Error::AlreadyInUse));
    p.leave_grant(0);
    assert_eq!(p.enter_grant(0), Ok(addr));
}

#[test]
fn dynamic_grants_round_trip_through_their_identifier() {
    let (_kernel, _chip, mut p, _unused) = make_process(0, 1024, FaultResponse::Stop);
    let (identifier, addr) = p.allocate_dynamic_grant(&mut (), 48, 8).unwrap();
    assert_eq!(addr % 8, 0);
    assert_eq!(p.enter_dynamic_grant(identifier), Ok(addr));
}

#[test]
fn task_queue_is_fifo_and_bounded() {
    let (mut kernel, _chip, mut p, _unused) = make_process(0, 1024, FaultResponse::Stop);
    // The initial task is already queued; drain it first.
    let initial = p.dequeue_task(&mut kernel).unwrap();
    match initial {
        Task::FunctionCall(fc) => {
            assert!(matches!(fc.source, FunctionCallSource::Kernel));
            assert_eq!(fc.pc, FLASH_BASE + 64);
            assert_eq!(fc.argument1, p.mem_start);
        }
        _ => panic!("the initial task is a function call"),
    }
    // Fill the ring to capacity.
    for i in 0..TASK_QUEUE_LEN {
        let queued = p.enqueue_task(
            &mut kernel,
            Task::FunctionCall(FunctionCall {
                source: FunctionCallSource::Driver(UpcallId { driver_num: i, subscribe_num: 0 }),
                argument0: i,
                argument1: 0,
                argument2: 0,
                argument3: 0,
                pc: 0x1000 + i,
            }),
        );
        assert!(queued);
    }
    // The queue is full: the newest task is dropped and counted.
    assert_eq!(p.debug_dropped_upcall_count(), 0);
    let queued = p.enqueue_task(
        &mut kernel,
        Task::IPC(AppId::new(9, 9), kernel_core::task::IpcUpcallType::Service),
    );
    assert!(!queued);
    assert_eq!(p.debug_dropped_upcall_count(), 1);
    // Dequeue returns the oldest first.
    match p.dequeue_task(&mut kernel).unwrap() {
        Task::FunctionCall(fc) => assert_eq!(fc.pc, 0x1000),
        _ => panic!("expected the first queued upcall"),
    }
}

#[test]
fn enqueue_fails_on_inactive_process() {
    let (mut kernel, _chip, mut p, _unused) = make_process(0, 1024, FaultResponse::Stop);
    p.terminate(&mut kernel, 0);
    let queued = p.enqueue_task(
        &mut kernel,
        Task::FunctionCall(FunctionCall {
            source: FunctionCallSource::Kernel,
            argument0: 0,
            argument1: 0,
            argument2: 0,
            argument3: 0,
            pc: 0,
        }),
    );
    assert!(!queued);
}

#[test]
fn remove_pending_upcalls_filters_by_identity() {
    let (mut kernel, _chip, mut p, _unused) = make_process(0, 1024, FaultResponse::Stop);
    p.dequeue_task(&mut kernel);
    let target = UpcallId { driver_num: 3, subscribe_num: 1 };
    let other = UpcallId { driver_num: 3, subscribe_num: 2 };
    for id in [target, other, target] {
        p.enqueue_task(
            &mut kernel,
            Task::FunctionCall(FunctionCall {
                source: FunctionCallSource::Driver(id),
                argument0: 0,
                argument1: 0,
                argument2: 0,
                argument3: 0,
                pc: 0,
            }),
        );
    }
    assert_eq!(p.tasks.len(), 3);
    p.remove_pending_upcalls(&mut kernel, target);
    assert_eq!(p.tasks.len(), 1);
}

#[test]
fn stop_is_idempotent_and_resume_restores() {
    let (mut kernel, mut chip, mut p, _unused) = make_process(0, 1024, FaultResponse::Stop);
    // Drive the process to Running through its queued initial task.
    let cb = p.dequeue_task(&mut kernel).unwrap();
    kernel.handle_callback(&mut p, &mut chip, &mut (), &mut kernel_core::platform::NoIpc {}, cb);
    assert_eq!(p.get_state(), State::Running);
    // Stopping twice in a row is a no-op the second time.
    p.stop(&mut kernel);
    assert_eq!(p.get_state(), State::StoppedRunning);
    p.stop(&mut kernel);
    assert_eq!(p.get_state(), State::StoppedRunning);
    // Resume restores the stopped-in state.
    p.resume(&mut kernel);
    assert_eq!(p.get_state(), State::Running);
    // Resuming a non-stopped process is a no-op.
    p.resume(&mut kernel);
    assert_eq!(p.get_state(), State::Running);
    // The same holds from the yielded state.
    p.set_yielded_state(&mut kernel);
    p.stop(&mut kernel);
    assert_eq!(p.get_state(), State::StoppedYielded);
    p.stop(&mut kernel);
    assert_eq!(p.get_state(), State::StoppedYielded);
    p.resume(&mut kernel);
    assert_eq!(p.get_state(), State::Yielded);
}

#[test]
fn terminate_clears_tasks_and_grants() {
    let (mut kernel, _chip, mut p, _unused) = make_process(2, 1024, FaultResponse::Stop);
    p.allocate_grant(&mut kernel, &mut (), 0, 32, 4).unwrap();
    p.terminate(&mut kernel, 0);
    assert_eq!(p.get_state(), State::Terminated);
    assert_eq!(p.tasks.len(), 0);
    assert!(!p.is_active());
    // Grant state is inspectable only while active, but re-activation via
    // restart sees the cleared table.
}

#[test]
fn terminate_then_restart_resets_the_layout() {
    // The round trip: terminate, then restart, resets both breaks to the
    // offsets computed at creation and queues exactly one initial task.
    let (mut kernel, mut chip, mut p, _unused) = make_process(4, 2048, FaultResponse::Stop);
    let initial_break = p.app_break;
    let initial_kernel_break = p.kernel_memory_break;
    let first_id = p.appid().identifier;
    // Disturb the layout.
    p.brk(&mut (), p.app_break + 200).unwrap();
    p.allocate_grant(&mut kernel, &mut (), 0, 64, 4).unwrap();
    assert_ne!(p.app_break, initial_break);
    assert_ne!(p.kernel_memory_break, initial_kernel_break);

    p.try_restart(&mut kernel, &mut chip, &mut (), 0);

    assert_eq!(p.get_state(), State::Unstarted);
    assert_eq!(p.app_break, initial_break);
    assert_eq!(p.kernel_memory_break, initial_kernel_break);
    assert_eq!(p.allow_high_water_mark, p.mem_start);
    assert_eq!(p.tasks.len(), 1);
    assert_eq!(p.get_restart_count(), 1);
    // The restarted process carries a fresh identifier in the same slot.
    assert_ne!(p.appid().identifier, first_id);
    assert_eq!(p.appid().index, 0);
    // The grant table was cleared by the restart.
    assert_eq!(p.grant_allocated_count(), Some(0));
}

#[test]
fn stale_identifiers_fail_cleanly_after_restart() {
    // An identifier held from before a restart carries the old generation:
    // it must match nothing, not reach the restarted process.
    let (mut kernel, mut chip, p, _unused) = make_process(0, 1024, FaultResponse::Stop);
    let stale = p.appid();
    let mut slots = kernel_core::process::ProcessSlots::new(1);
    slots.put(0, Some(p));
    assert!(slots.get_by_appid(stale).is_some());
    let mut p = slots.take(0).unwrap();
    p.try_restart(&mut kernel, &mut chip, &mut (), 0);
    let fresh = p.appid();
    slots.put(0, Some(p));
    assert!(slots.get_by_appid(stale).is_none());
    assert!(slots.get_by_appid(fresh).is_some());
}

#[test]
fn fault_with_stop_response_keeps_the_process_for_inspection() {
    let (mut kernel, mut chip, mut p, _unused) = make_process(0, 1024, FaultResponse::Stop);
    p.set_fault_state(&mut kernel, &mut chip, &mut ());
    assert_eq!(p.get_state(), State::Faulted);
    assert_eq!(p.tasks.len(), 0);
    assert!(!kernel.has_halted());
}

#[test]
fn fault_with_panic_response_halts_the_board() {
    let (mut kernel, mut chip, mut p, _unused) = make_process(0, 1024, FaultResponse::Panic);
    p.set_fault_state(&mut kernel, &mut chip, &mut ());
    assert_eq!(p.get_state(), State::Faulted);
    assert!(kernel.has_halted());
}

#[test]
fn fault_with_always_restart_restarts_every_time() {
    let policy = RestartPolicy::Always(AlwaysRestart::new());
    let (mut kernel, mut chip, mut p, _unused) =
        make_process(0, 1024, FaultResponse::Restart(policy));
    for expected in 1..4 {
        p.set_fault_state(&mut kernel, &mut chip, &mut ());
        assert_eq!(p.get_state(), State::Unstarted);
        assert_eq!(p.get_restart_count(), expected);
    }
    assert!(!kernel.has_halted());
}

#[test]
fn fault_with_threshold_restart_gives_up_after_threshold() {
    let policy = RestartPolicy::Threshold(ThresholdRestart::new(1));
    let (mut kernel, mut chip, mut p, _unused) =
        make_process(0, 1024, FaultResponse::Restart(policy));
    // Restarted while the count stays within the threshold...
    p.set_fault_state(&mut kernel, &mut chip, &mut ());
    assert_eq!(p.get_state(), State::Unstarted);
    p.set_fault_state(&mut kernel, &mut chip, &mut ());
    assert_eq!(p.get_state(), State::Unstarted);
    // ...then left faulted, quietly.
    p.set_fault_state(&mut kernel, &mut chip, &mut ());
    assert_eq!(p.get_state(), State::Faulted);
    assert!(!kernel.has_halted());
}

#[test]
fn fault_with_threshold_then_panic_halts_when_exceeded() {
    let policy = RestartPolicy::ThresholdThenPanic(ThresholdRestartThenPanic::new(0));
    let (mut kernel, mut chip, mut p, _unused) =
        make_process(0, 1024, FaultResponse::Restart(policy));
    p.set_fault_state(&mut kernel, &mut chip, &mut ());
    assert_eq!(p.get_state(), State::Unstarted);
    assert!(!kernel.has_halted());
    // One fault beyond the threshold is a fatal board condition.
    p.set_fault_state(&mut kernel, &mut chip, &mut ());
    assert_eq!(p.get_state(), State::Faulted);
    assert!(kernel.has_halted());
}

#[test]
fn switch_to_reports_the_chip_reason() {
    let (mut kernel, mut chip, mut p, _unused) = make_process(0, 1024, FaultResponse::Stop);
    chip.switch_reason = Some(ContextSwitchReason::Interrupted);
    assert_eq!(p.switch_to(&mut chip), Some(ContextSwitchReason::Interrupted));
    // An inactive process cannot be switched to.
    p.terminate(&mut kernel, 0);
    assert_eq!(p.switch_to(&mut chip), None);
}

#[test]
fn debug_counters_track_events() {
    let (_kernel, _chip, mut p, _unused) = make_process(0, 1024, FaultResponse::Stop);
    assert_eq!(p.debug_timeslice_expiration_count(), 0);
    p.debug_timeslice_expired();
    p.debug_timeslice_expired();
    assert_eq!(p.debug_timeslice_expiration_count(), 2);
    assert_eq!(p.debug_syscall_count(), 0);
    p.debug_syscall_called(kernel_core::task::Syscall::YIELD);
    assert_eq!(p.debug_syscall_count(), 1);
    // Stack and heap pointers are recorded only inside the window.
    p.update_stack_start_pointer(p.mem_start + 400);
    p.update_heap_start_pointer(p.mem_start + 500);
    let map = p.memory_map();
    assert_eq!(map.sram_stack_start, Some(p.mem_start + 400));
    assert_eq!(map.sram_heap_start, Some(p.mem_start + 500));
    p.update_heap_start_pointer(0);
    assert_eq!(p.memory_map().sram_heap_start, Some(p.mem_start + 500));
}

#[test]
fn error_codes_map_per_taxonomy() {
    assert_eq!(ReturnCode::from(Error::OutOfMemory), ReturnCode::ENOMEM);
    assert_eq!(ReturnCode::from(Error::AddressOutOfBounds), ReturnCode::EINVAL);
    assert_eq!(ReturnCode::from(Error::NoSuchApp), ReturnCode::EINVAL);
    assert_eq!(ReturnCode::from(Error::InactiveApp), ReturnCode::FAIL);
    assert_eq!(ErrorCode::from(Error::OutOfMemory), ErrorCode::NOMEM);
    assert_eq!(ErrorCode::from(Error::AlreadyInUse), ErrorCode::FAIL);
}
