//! Tests of the round-robin scheduler and the kernel dispatcher: fairness
//! over a scripted chip, syscall routing, and memory operations.

use kernel_core::error::{ErrorCode, ReturnCode};
use kernel_core::mem::ReadWriteAppSlice;
use kernel_core::platform::{Chip, NoIpc, Platform};
use kernel_core::process::{
    load_processes, FaultResponse, MemoryRegion, ProcessSlots, ProcessType, State,
};
use kernel_core::sched::round_robin::{RRProcessNode, RoundRobinSched};
use kernel_core::sched::{memop, Kernel, Scheduler};
use kernel_core::task::{AppId, ContextSwitchReason, FunctionCall, Syscall};

/// A chip that runs a script: every context switch returns the scripted
/// reason and logs which slot ran; after the script is exhausted an
/// interrupt is reported pending so the scheduling loop hands back control.
struct ScriptedChip {
    reasons: Vec<Option<ContextSwitchReason>>,
    switch_log: Vec<usize>,
}

impl ScriptedChip {
    fn new(reasons: Vec<Option<ContextSwitchReason>>) -> ScriptedChip {
        ScriptedChip { reasons, switch_log: Vec::new() }
    }
}

impl Chip for ScriptedChip {
    fn service_pending_interrupts(&mut self) {}

    fn has_pending_interrupts(&mut self) -> bool {
        self.switch_log.len() >= self.reasons.len()
    }

    fn initial_process_app_brk_size(&mut self) -> usize {
        128
    }

    fn initialize_process(&mut self, _app: AppId, _mem_start: usize, _app_break: usize) -> Result<(), ()> {
        Ok(())
    }

    fn set_syscall_return_value(
        &mut self,
        _app: AppId,
        _mem_start: usize,
        _app_break: usize,
        _value: ReturnCode,
    ) -> Result<(), ()> {
        Ok(())
    }

    fn set_process_function(
        &mut self,
        _app: AppId,
        _mem_start: usize,
        _app_break: usize,
        _callback: FunctionCall,
    ) -> Result<(), ()> {
        Ok(())
    }

    fn switch_to_process(
        &mut self,
        app: AppId,
        _mem_start: usize,
        _app_break: usize,
    ) -> (Option<ContextSwitchReason>, Option<usize>) {
        let i = self.switch_log.len();
        self.switch_log.push(app.index);
        let reason = if i < self.reasons.len() {
            self.reasons[i]
        } else {
            Some(ContextSwitchReason::TimesliceExpired)
        };
        (reason, None)
    }
}

/// A driver surface that acknowledges everything and remembers the slices
/// offered to it.
struct SimPlatform {
    allowed: Vec<Result<ReadWriteAppSlice, ErrorCode>>,
}

impl Platform for SimPlatform {
    fn subscribe(
        &mut self,
        _driver_number: usize,
        _subdriver_number: usize,
        _upcall_ptr: usize,
        _appdata: usize,
        _app: AppId,
    ) -> ReturnCode {
        ReturnCode::SUCCESS
    }

    fn command(
        &mut self,
        _driver_number: usize,
        _subdriver_number: usize,
        _arg0: usize,
        _arg1: usize,
        _app: AppId,
    ) -> ReturnCode {
        ReturnCode::SUCCESS
    }

    fn allow(
        &mut self,
        _app: AppId,
        _driver_number: usize,
        _subdriver_number: usize,
        slice: Result<ReadWriteAppSlice, ErrorCode>,
    ) -> ReturnCode {
        self.allowed.push(slice);
        ReturnCode::SUCCESS
    }
}

fn push_le16(v: &mut Vec<u8>, x: u16) {
    v.push((x & 0xFF) as u8);
    v.push((x >> 8) as u8);
}

fn push_le32(v: &mut Vec<u8>, x: u32) {
    v.push((x & 0xFF) as u8);
    v.push(((x >> 8) & 0xFF) as u8);
    v.push(((x >> 16) & 0xFF) as u8);
    v.push(((x >> 24) & 0xFF) as u8);
}

fn entry(total_length: u32, min_ram: u32) -> Vec<u8> {
    let mut e = Vec::new();
    push_le16(&mut e, 2);
    push_le16(&mut e, 36);
    push_le32(&mut e, total_length);
    push_le32(&mut e, 3);
    push_le32(&mut e, 36);
    push_le32(&mut e, 40);
    push_le32(&mut e, min_ram);
    push_le32(&mut e, 0xFFFF_FFFF);
    push_le32(&mut e, 0xFFFF_FFFF);
    push_le32(&mut e, 0);
    while e.len() < total_length as usize {
        e.push(0);
    }
    e
}

/// Load `n` one-entry processes and queue them in slot order.
fn board(n: usize, chip: &mut ScriptedChip) -> (Kernel, ProcessSlots, RoundRobinSched) {
    let mut kernel = Kernel::new();
    let mut image = Vec::new();
    for _ in 0..n {
        image.extend_from_slice(&entry(256, 512));
    }
    let mut slots = ProcessSlots::new(n);
    load_processes(
        &mut kernel,
        chip,
        &mut (),
        &image,
        0x0004_0000,
        MemoryRegion { start: 0x2000_0000, size: 65536 },
        &mut slots,
        FaultResponse::Stop,
    )
    .unwrap();
    let mut sched = RoundRobinSched::new();
    for i in 0..n {
        let appid = slots.get(i).unwrap().app_id;
        sched.processes.push(RRProcessNode::new(appid));
    }
    (kernel, slots, sched)
}

#[test]
fn round_robin_schedules_each_once_per_round() {
    // Three ready processes, each running out its full timeslice: over
    // three rounds each is scheduled exactly once before any repeats.
    let rounds = 3;
    let script = vec![Some(ContextSwitchReason::TimesliceExpired); 3 * rounds];
    let mut chip = ScriptedChip::new(script);
    let (mut kernel, mut slots, mut sched) = board(3, &mut chip);
    let mut platform = SimPlatform { allowed: Vec::new() };
    sched.kernel_loop(
        &mut kernel,
        &mut slots,
        &mut platform,
        &mut chip,
        &mut (),
        &mut (),
        &mut (),
        &mut NoIpc {},
        100,
    );
    assert_eq!(chip.switch_log, vec![0, 1, 2, 0, 1, 2, 0, 1, 2]);
}

#[test]
fn interrupted_process_is_resumed_next() {
    // An interruption mid-quantum pauses the countdown; after the bottom
    // half, the same process runs again before the queue rotates.
    let script = vec![
        Some(ContextSwitchReason::Interrupted),
        Some(ContextSwitchReason::TimesliceExpired),
        Some(ContextSwitchReason::TimesliceExpired),
    ];
    let mut chip = ScriptedChip::new(script);
    let (mut kernel, mut slots, mut sched) = board(2, &mut chip);
    let mut platform = SimPlatform { allowed: Vec::new() };
    sched.kernel_loop(
        &mut kernel,
        &mut slots,
        &mut platform,
        &mut chip,
        &mut (),
        &mut (),
        &mut (),
        &mut NoIpc {},
        100,
    );
    // Interrupts pend between the calls; the board services them and calls
    // back in, where slot 0 is resumed.
    sched.kernel_loop(
        &mut kernel,
        &mut slots,
        &mut platform,
        &mut chip,
        &mut (),
        &mut (),
        &mut (),
        &mut NoIpc {},
        100,
    );
    assert_eq!(chip.switch_log, vec![0, 0, 1]);
}

#[test]
fn yielding_processes_block_the_loop() {
    // Each process yields with no further upcalls queued: once every task
    // is drained, no work is outstanding and the loop returns.
    let script = vec![
        Some(ContextSwitchReason::SyscallFired { syscall: Syscall::YIELD }),
        Some(ContextSwitchReason::SyscallFired { syscall: Syscall::YIELD }),
    ];
    let mut chip = ScriptedChip::new(script);
    let (mut kernel, mut slots, mut sched) = board(2, &mut chip);
    let mut platform = SimPlatform { allowed: Vec::new() };
    sched.kernel_loop(
        &mut kernel,
        &mut slots,
        &mut platform,
        &mut chip,
        &mut (),
        &mut (),
        &mut (),
        &mut NoIpc {},
        100,
    );
    assert_eq!(chip.switch_log, vec![0, 1]);
    assert!(kernel.processes_blocked());
    assert_eq!(slots.get(0).unwrap().state, State::Yielded);
    assert_eq!(slots.get(1).unwrap().state, State::Yielded);
}

#[test]
fn faulting_process_is_handled_by_its_response() {
    let script = vec![
        Some(ContextSwitchReason::Fault),
        Some(ContextSwitchReason::TimesliceExpired),
    ];
    let mut chip = ScriptedChip::new(script);
    let (mut kernel, mut slots, mut sched) = board(2, &mut chip);
    let mut platform = SimPlatform { allowed: Vec::new() };
    sched.kernel_loop(
        &mut kernel,
        &mut slots,
        &mut platform,
        &mut chip,
        &mut (),
        &mut (),
        &mut (),
        &mut NoIpc {},
        100,
    );
    // The faulting process was stopped and kept for inspection.
    assert_eq!(slots.get(0).unwrap().state, State::Faulted);
}

#[test]
fn halted_board_stops_scheduling() {
    let script = vec![Some(ContextSwitchReason::TimesliceExpired); 6];
    let mut chip = ScriptedChip::new(script);
    let (mut kernel, mut slots, mut sched) = board(2, &mut chip);
    kernel.halt();
    let mut platform = SimPlatform { allowed: Vec::new() };
    sched.kernel_loop(
        &mut kernel,
        &mut slots,
        &mut platform,
        &mut chip,
        &mut (),
        &mut (),
        &mut (),
        &mut NoIpc {},
        100,
    );
    assert_eq!(chip.switch_log, Vec::<usize>::new());
}

#[test]
fn process_return_routes_yield() {
    let mut chip = ScriptedChip::new(vec![]);
    let (mut kernel, mut slots, _sched) = board(1, &mut chip);
    let mut platform = SimPlatform { allowed: Vec::new() };
    let mut p = slots.take(0).unwrap();
    // Dispatch the initial task so the process is running.
    let cb = p.dequeue_task(&mut kernel).unwrap();
    kernel.handle_callback(&mut p, &mut chip, &mut (), &mut NoIpc {}, cb);
    assert_eq!(p.state, State::Running);
    let appid = p.appid();
    kernel.process_return(
        appid,
        Some(ContextSwitchReason::SyscallFired { syscall: Syscall::YIELD }),
        &mut p,
        &mut platform,
        &mut chip,
        &mut (),
    );
    assert_eq!(p.state, State::Yielded);
    assert_eq!(p.debug_syscall_count(), 1);
}

#[test]
fn process_return_routes_memop() {
    let mut chip = ScriptedChip::new(vec![]);
    let (mut kernel, mut slots, _sched) = board(1, &mut chip);
    let mut platform = SimPlatform { allowed: Vec::new() };
    let mut p = slots.take(0).unwrap();
    let appid = p.appid();
    let break_before = p.app_break;
    kernel.process_return(
        appid,
        Some(ContextSwitchReason::SyscallFired {
            syscall: Syscall::MEMOP { operand: 1, arg0: 64 },
        }),
        &mut p,
        &mut platform,
        &mut chip,
        &mut (),
    );
    assert_eq!(p.app_break, break_before + 64);
    assert_eq!(p.debug_syscall_count(), 1);
}

#[test]
fn process_return_routes_allow_through_validation() {
    let mut chip = ScriptedChip::new(vec![]);
    let (mut kernel, mut slots, _sched) = board(1, &mut chip);
    let mut platform = SimPlatform { allowed: Vec::new() };
    let mut p = slots.take(0).unwrap();
    let appid = p.appid();
    let good = Syscall::ALLOW {
        driver_number: 1,
        subdriver_number: 0,
        allow_address: p.mem_start + 8,
        allow_size: 16,
    };
    let bad = Syscall::ALLOW {
        driver_number: 1,
        subdriver_number: 0,
        allow_address: p.mem_end(),
        allow_size: 16,
    };
    kernel.process_return(
        appid,
        Some(ContextSwitchReason::SyscallFired { syscall: good }),
        &mut p,
        &mut platform,
        &mut chip,
        &mut (),
    );
    kernel.process_return(
        appid,
        Some(ContextSwitchReason::SyscallFired { syscall: bad }),
        &mut p,
        &mut platform,
        &mut chip,
        &mut (),
    );
    assert_eq!(platform.allowed.len(), 2);
    assert!(platform.allowed[0].is_ok());
    assert_eq!(platform.allowed[1], Err(ErrorCode::INVAL));
}

#[test]
fn memop_reports_addresses_and_moves_breaks() {
    let mut chip = ScriptedChip::new(vec![]);
    let (_kernel, mut slots, _sched) = board(1, &mut chip);
    let mut p = slots.take(0).unwrap();
    assert_eq!(
        memop(&mut p, &mut (), 2, 0),
        ReturnCode::SuccessWithValue { value: p.mem_start }
    );
    assert_eq!(
        memop(&mut p, &mut (), 3, 0),
        ReturnCode::SuccessWithValue { value: p.mem_start + p.mem_size }
    );
    assert_eq!(
        memop(&mut p, &mut (), 4, 0),
        ReturnCode::SuccessWithValue { value: p.flash_base }
    );
    assert_eq!(
        memop(&mut p, &mut (), 5, 0),
        ReturnCode::SuccessWithValue { value: p.flash_base + p.flash_size }
    );
    assert_eq!(
        memop(&mut p, &mut (), 6, 0),
        ReturnCode::SuccessWithValue { value: p.kernel_memory_break }
    );
    assert_eq!(memop(&mut p, &mut (), 7, 0), ReturnCode::SuccessWithValue { value: 0 });
    // Break adjustment through the syscall surface.
    let base = p.mem_start;
    assert_eq!(memop(&mut p, &mut (), 0, base + 700), ReturnCode::SUCCESS);
    assert_eq!(p.app_break, base + 700);
    assert_eq!(
        memop(&mut p, &mut (), 1, 100),
        ReturnCode::SuccessWithValue { value: base + 700 }
    );
    assert_eq!(p.app_break, base + 800);
    // Debug pointers round through the memory map.
    assert_eq!(memop(&mut p, &mut (), 10, base + 640), ReturnCode::SUCCESS);
    assert_eq!(memop(&mut p, &mut (), 11, base + 660), ReturnCode::SUCCESS);
    let map = p.memory_map();
    assert_eq!(map.sram_stack_start, Some(base + 640));
    assert_eq!(map.sram_heap_start, Some(base + 660));
    // Unknown operands are unsupported.
    assert_eq!(memop(&mut p, &mut (), 99, 0), ReturnCode::ENOSUPPORT);
}

#[test]
fn process_each_capability_visits_every_loaded_process() {
    let mut chip = ScriptedChip::new(vec![]);
    let (kernel, slots, _sched) = board(3, &mut chip);
    let visited = std::cell::Cell::new(0usize);
    kernel.process_each_capability(&slots, |_i, _p| {
        visited.set(visited.get() + 1);
    });
    assert_eq!(visited.get(), 3);
}

#[test]
fn hardfault_all_apps_applies_every_response() {
    let mut chip = ScriptedChip::new(vec![]);
    let (mut kernel, mut slots, _sched) = board(3, &mut chip);
    kernel.hardfault_all_apps(&mut slots, &mut chip, &mut ());
    for i in 0..3 {
        assert_eq!(slots.get(i).unwrap().state, State::Faulted);
    }
    assert!(kernel.processes_blocked());
}
