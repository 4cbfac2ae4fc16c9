//! Tests of the multilevel feedback queue scheduler: demotion on exhausted
//! timeslices, periodic promotion back to the top queue, and the per-level
//! timeslices.

use kernel_core::error::ReturnCode;
use kernel_core::mem::ReadWriteAppSlice;
use kernel_core::error::ErrorCode;
use kernel_core::platform::systick::Alarm;
use kernel_core::platform::{Chip, NoIpc, Platform};
use kernel_core::process::{load_processes, FaultResponse, MemoryRegion, ProcessSlots};
use kernel_core::sched::mlfq::{
    MLFQSched, ProcessMultiQueues, NUM_QUEUES, PRIORITY_REFRESH_PERIOD_MS,
};
use kernel_core::sched::ProcessContainer;
use kernel_core::sched::{Kernel, Scheduler};
use kernel_core::task::{AppId, ContextSwitchReason, FunctionCall};

struct ScriptedChip {
    reasons: Vec<Option<ContextSwitchReason>>,
    switch_log: Vec<usize>,
}

impl Chip for ScriptedChip {
    fn service_pending_interrupts(&mut self) {}

    fn has_pending_interrupts(&mut self) -> bool {
        self.switch_log.len() >= self.reasons.len()
    }

    fn initial_process_app_brk_size(&mut self) -> usize {
        128
    }

    fn initialize_process(&mut self, _app: AppId, _mem_start: usize, _app_break: usize) -> Result<(), ()> {
        Ok(())
    }

    fn set_syscall_return_value(
        &mut self,
        _app: AppId,
        _mem_start: usize,
        _app_break: usize,
        _value: ReturnCode,
    ) -> Result<(), ()> {
        Ok(())
    }

    fn set_process_function(
        &mut self,
        _app: AppId,
        _mem_start: usize,
        _app_break: usize,
        _callback: FunctionCall,
    ) -> Result<(), ()> {
        Ok(())
    }

    fn switch_to_process(
        &mut self,
        app: AppId,
        _mem_start: usize,
        _app_break: usize,
    ) -> (Option<ContextSwitchReason>, Option<usize>) {
        let i = self.switch_log.len();
        self.switch_log.push(app.index);
        let reason = if i < self.reasons.len() {
            self.reasons[i]
        } else {
            Some(ContextSwitchReason::TimesliceExpired)
        };
        (reason, None)
    }
}

struct SimPlatform;

impl Platform for SimPlatform {
    fn subscribe(
        &mut self,
        _driver_number: usize,
        _subdriver_number: usize,
        _upcall_ptr: usize,
        _appdata: usize,
        _app: AppId,
    ) -> ReturnCode {
        ReturnCode::SUCCESS
    }

    fn command(
        &mut self,
        _driver_number: usize,
        _subdriver_number: usize,
        _arg0: usize,
        _arg1: usize,
        _app: AppId,
    ) -> ReturnCode {
        ReturnCode::SUCCESS
    }

    fn allow(
        &mut self,
        _app: AppId,
        _driver_number: usize,
        _subdriver_number: usize,
        _slice: Result<ReadWriteAppSlice, ErrorCode>,
    ) -> ReturnCode {
        ReturnCode::SUCCESS
    }
}

/// An alarm whose counter advances by `step` ticks every reading.
struct SteppingAlarm {
    now: u32,
    step: u32,
    compare: u32,
}

impl Alarm for SteppingAlarm {
    fn now(&mut self) -> u32 {
        let t = self.now;
        self.now = self.now.wrapping_add(self.step);
        t
    }

    fn set_alarm(&mut self, at: u32) {
        self.compare = at;
    }

    fn get_alarm(&mut self) -> u32 {
        self.compare
    }

    fn enable(&mut self) {}

    fn disable(&mut self) {}

    fn frequency(&self) -> u32 {
        1_000_000
    }
}

fn push_le16(v: &mut Vec<u8>, x: u16) {
    v.push((x & 0xFF) as u8);
    v.push((x >> 8) as u8);
}

fn push_le32(v: &mut Vec<u8>, x: u32) {
    v.push((x & 0xFF) as u8);
    v.push(((x >> 8) & 0xFF) as u8);
    v.push(((x >> 16) & 0xFF) as u8);
    v.push(((x >> 24) & 0xFF) as u8);
}

fn entry(total_length: u32, min_ram: u32) -> Vec<u8> {
    let mut e = Vec::new();
    push_le16(&mut e, 2);
    push_le16(&mut e, 36);
    push_le32(&mut e, total_length);
    push_le32(&mut e, 3);
    push_le32(&mut e, 36);
    push_le32(&mut e, 40);
    push_le32(&mut e, min_ram);
    push_le32(&mut e, 0xFFFF_FFFF);
    push_le32(&mut e, 0xFFFF_FFFF);
    push_le32(&mut e, 0);
    while e.len() < total_length as usize {
        e.push(0);
    }
    e
}

fn board(n: usize, chip: &mut ScriptedChip) -> (Kernel, ProcessSlots, MLFQSched) {
    let mut kernel = Kernel::new();
    let mut image = Vec::new();
    for _ in 0..n {
        image.extend_from_slice(&entry(256, 512));
    }
    let mut slots = ProcessSlots::new(n);
    load_processes(
        &mut kernel,
        chip,
        &mut (),
        &image,
        0x0004_0000,
        MemoryRegion { start: 0x2000_0000, size: 65536 },
        &mut slots,
        FaultResponse::Stop,
    )
    .unwrap();
    let mut queues = ProcessMultiQueues::new(n);
    for i in 0..n {
        queues.load_process_with_id(Some(i), i);
    }
    (kernel, slots, MLFQSched::new(queues))
}

#[test]
fn timeslices_grow_toward_lower_queues() {
    let mut chip = ScriptedChip { reasons: vec![], switch_log: Vec::new() };
    let (_kernel, _slots, sched) = board(1, &mut chip);
    assert_eq!(sched.get_timeslice_us(0), 10000);
    assert_eq!(sched.get_timeslice_us(1), 20000);
    assert_eq!(sched.get_timeslice_us(2), 50000);
}

#[test]
fn exhausted_timeslice_demotes_one_queue() {
    // A process that runs out its timeslice in the top queue is found in
    // the second queue at its next scheduling opportunity.
    let script = vec![Some(ContextSwitchReason::TimesliceExpired)];
    let mut chip = ScriptedChip { reasons: script, switch_log: Vec::new() };
    let (mut kernel, mut slots, mut sched) = board(2, &mut chip);
    let mut platform = SimPlatform;
    // An alarm that stands still: no promotion interferes.
    let mut alarm = SteppingAlarm { now: 0, step: 0, compare: 0 };
    sched.kernel_loop(
        &mut kernel,
        &mut slots,
        &mut platform,
        &mut chip,
        &mut (),
        &mut (),
        &mut alarm,
        &mut NoIpc {},
        1,
    );
    assert_eq!(chip.switch_log, vec![0]);
    // Slot 0's node moved down; slot 1's stayed on top.
    assert_eq!(sched.processes.queues[0].len(), 1);
    assert_eq!(sched.processes.queues[0][0].process, Some(1));
    assert_eq!(sched.processes.queues[1].len(), 1);
    assert_eq!(sched.processes.queues[1][0].process, Some(0));
    // Demotion reset the used-time counter.
    assert_eq!(sched.processes.queues[1][0].us_used_this_queue, 0);
}

#[test]
fn demotion_stops_at_the_lowest_queue() {
    let script = vec![Some(ContextSwitchReason::TimesliceExpired); 3];
    let mut chip = ScriptedChip { reasons: script, switch_log: Vec::new() };
    let (mut kernel, mut slots, mut sched) = board(1, &mut chip);
    let mut platform = SimPlatform;
    let mut alarm = SteppingAlarm { now: 0, step: 0, compare: 0 };
    sched.kernel_loop(
        &mut kernel,
        &mut slots,
        &mut platform,
        &mut chip,
        &mut (),
        &mut (),
        &mut alarm,
        &mut NoIpc {},
        3,
    );
    // Demoted twice, then pinned in the lowest queue.
    assert_eq!(sched.processes.queues[NUM_QUEUES - 1].len(), 1);
    assert_eq!(sched.processes.queues[NUM_QUEUES - 1][0].process, Some(0));
}

#[test]
fn promotion_restores_the_top_queue() {
    // After one refresh period, every process is back in the top queue
    // regardless of prior demotions.
    let script = vec![Some(ContextSwitchReason::TimesliceExpired); 2];
    let mut chip = ScriptedChip { reasons: script, switch_log: Vec::new() };
    let (mut kernel, mut slots, mut sched) = board(2, &mut chip);
    let mut platform = SimPlatform;
    // The alarm leaps a full refresh period between readings, so the second
    // decision begins with a promotion.
    let mut alarm = SteppingAlarm { now: 0, step: u32::MAX / 2, compare: 0 };
    sched.kernel_loop(
        &mut kernel,
        &mut slots,
        &mut platform,
        &mut chip,
        &mut (),
        &mut (),
        &mut alarm,
        &mut NoIpc {},
        2,
    );
    // Slot 0 was demoted by the first decision and promoted back before the
    // second; slot 1 was then demoted in its turn.
    assert_eq!(sched.processes.queues[0].len(), 1);
    assert_eq!(sched.processes.queues[0][0].process, Some(0));
    assert_eq!(sched.processes.queues[1].len(), 1);
    assert_eq!(sched.processes.queues[1][0].process, Some(1));
}

#[test]
fn redeem_all_procs_empties_the_lower_queues() {
    let script = vec![Some(ContextSwitchReason::TimesliceExpired); 3];
    let mut chip = ScriptedChip { reasons: script, switch_log: Vec::new() };
    let (mut kernel, mut slots, mut sched) = board(3, &mut chip);
    let mut platform = SimPlatform;
    let mut alarm = SteppingAlarm { now: 0, step: 0, compare: 0 };
    sched.kernel_loop(
        &mut kernel,
        &mut slots,
        &mut platform,
        &mut chip,
        &mut (),
        &mut (),
        &mut alarm,
        &mut NoIpc {},
        3,
    );
    // All three were demoted once.
    assert_eq!(sched.processes.queues[1].len(), 3);
    sched.redeem_all_procs();
    assert_eq!(sched.processes.queues[0].len(), 3);
    assert_eq!(sched.processes.queues[1].len(), 0);
    assert_eq!(sched.processes.queues[2].len(), 0);
    // Promotion reset every counter.
    for i in 0..3 {
        assert_eq!(sched.processes.queues[0][i].us_used_this_queue, 0);
    }
}

#[test]
fn over_allotment_ends_the_quantum_before_any_switch() {
    // A process whose used-time counter already exceeds the refresh budget
    // is out of time the moment it is picked: no context switch happens and
    // the counter comes back unchanged.
    let mut chip = ScriptedChip { reasons: vec![], switch_log: Vec::new() };
    let (mut kernel, mut slots, sched) = board(1, &mut chip);
    let mut platform = SimPlatform;
    let mut process = slots.take(0).unwrap();
    let over = PRIORITY_REFRESH_PERIOD_MS * 1000 + 1;
    let (reason, us_after) = sched.do_process(
        &mut kernel,
        &mut process,
        &mut platform,
        &mut chip,
        &mut (),
        &mut (),
        &mut NoIpc {},
        10000,
        over,
    );
    assert_eq!(reason, Some(ContextSwitchReason::TimesliceExpired));
    assert_eq!(us_after, over);
    assert!(chip.switch_log.is_empty());
    assert_eq!(kernel_core::process::ProcessType::debug_timeslice_expiration_count(&process), 1);
}

#[test]
fn selection_rotates_the_first_ready_node_to_the_head() {
    // Queue 0 holds an unready node before a ready one: selection rotates
    // the ready node to the head without touching the other queues.
    let mut chip = ScriptedChip { reasons: vec![], switch_log: Vec::new() };
    let (mut kernel, mut slots, mut sched) = board(2, &mut chip);
    // Drain slot 0's initial task so only slot 1 is ready.
    let mut p0 = slots.take(0).unwrap();
    kernel_core::process::ProcessType::dequeue_task(&mut p0, &mut kernel).unwrap();
    slots.put(0, Some(p0));
    let picked = sched.processes.get_next_ready_process_node(&slots);
    assert_eq!(picked, Some(0));
    assert_eq!(sched.processes.queues[0][0].process, Some(1));
    assert_eq!(sched.processes.queues[0][1].process, Some(0));
}

#[test]
fn selection_reports_nothing_ready() {
    let mut chip = ScriptedChip { reasons: vec![], switch_log: Vec::new() };
    let (mut kernel, mut slots, mut sched) = board(1, &mut chip);
    let mut p0 = slots.take(0).unwrap();
    kernel_core::process::ProcessType::dequeue_task(&mut p0, &mut kernel).unwrap();
    slots.put(0, Some(p0));
    assert_eq!(sched.processes.get_next_ready_process_node(&slots), None);
}

#[test]
fn container_counts_nodes_and_bound_processes() {
    let mut queues = ProcessMultiQueues::new(3);
    assert_eq!(queues.num_procs, 0);
    assert_eq!(ProcessContainer::len(&queues), 3);
    assert_eq!(ProcessContainer::active(&queues), 0);
    queues.load_process_with_id(Some(0), 0);
    queues.load_process_with_id(Some(2), 2);
    assert_eq!(ProcessContainer::len(&queues), 3);
    assert_eq!(ProcessContainer::active(&queues), 2);
}

#[test]
fn promotion_keeps_node_order_and_bindings() {
    let script = vec![Some(ContextSwitchReason::TimesliceExpired); 2];
    let mut chip = ScriptedChip { reasons: script, switch_log: Vec::new() };
    let (mut kernel, mut slots, mut sched) = board(3, &mut chip);
    let mut platform = SimPlatform;
    let mut alarm = SteppingAlarm { now: 0, step: 0, compare: 0 };
    // Demote slots 0 and 1; slot 2 stays on top.
    sched.kernel_loop(
        &mut kernel,
        &mut slots,
        &mut platform,
        &mut chip,
        &mut (),
        &mut (),
        &mut alarm,
        &mut NoIpc {},
        2,
    );
    assert_eq!(sched.processes.queues[0].len(), 1);
    assert_eq!(sched.processes.queues[1].len(), 2);
    sched.redeem_all_procs();
    // The former top node comes first, then the demoted ones in order.
    let bindings: Vec<Option<usize>> =
        sched.processes.queues[0].iter().map(|n| n.process).collect();
    assert_eq!(bindings, vec![Some(2), Some(0), Some(1)]);
}

#[test]
fn ready_scan_prefers_the_higher_queue() {
    let script = vec![Some(ContextSwitchReason::TimesliceExpired); 2];
    let mut chip = ScriptedChip { reasons: script, switch_log: Vec::new() };
    let (mut kernel, mut slots, mut sched) = board(2, &mut chip);
    let mut platform = SimPlatform;
    let mut alarm = SteppingAlarm { now: 0, step: 0, compare: 0 };
    // Demote slot 0, then schedule again: the top queue (slot 1) wins.
    sched.kernel_loop(
        &mut kernel,
        &mut slots,
        &mut platform,
        &mut chip,
        &mut (),
        &mut (),
        &mut alarm,
        &mut NoIpc {},
        2,
    );
    assert_eq!(chip.switch_log, vec![0, 1]);
}
