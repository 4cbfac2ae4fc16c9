//! Tests of the strict-priority scheduler and the deadline-aware scheduler.

use kernel_core::error::{ReturnCode, ProcessLoadError};
use kernel_core::platform::systick::Alarm;
use kernel_core::platform::Chip;
use kernel_core::process::{load_processes, FaultResponse, MemoryRegion, ProcessSlots, ProcessType};
use kernel_core::sched::priority::{RoundRobinProcessNode, RoundRobinSched};
use kernel_core::sched::secure_time::{
    KernelTask, KernelWork, STTaskNode, SchedulingDecision, SecureTimeComponent, SecureTimeSched,
    StoppedExecutingReason, Task, UserspaceResult, WcetTable, DEFAULT_TIMESLICE_US, MAX_TASKS,
};
use kernel_core::sched::Kernel;
use kernel_core::task::{AppId, ContextSwitchReason, FunctionCall, Syscall};

struct SimChip;

impl Chip for SimChip {
    fn service_pending_interrupts(&mut self) {}

    fn has_pending_interrupts(&mut self) -> bool {
        false
    }

    fn initial_process_app_brk_size(&mut self) -> usize {
        128
    }

    fn initialize_process(&mut self, _app: AppId, _mem_start: usize, _app_break: usize) -> Result<(), ()> {
        Ok(())
    }

    fn set_syscall_return_value(
        &mut self,
        _app: AppId,
        _mem_start: usize,
        _app_break: usize,
        _value: ReturnCode,
    ) -> Result<(), ()> {
        Ok(())
    }

    fn set_process_function(
        &mut self,
        _app: AppId,
        _mem_start: usize,
        _app_break: usize,
        _callback: FunctionCall,
    ) -> Result<(), ()> {
        Ok(())
    }

    fn switch_to_process(
        &mut self,
        _app: AppId,
        _mem_start: usize,
        _app_break: usize,
    ) -> (Option<ContextSwitchReason>, Option<usize>) {
        (Some(ContextSwitchReason::TimesliceExpired), None)
    }
}

struct FixedAlarm {
    now: u32,
}

impl Alarm for FixedAlarm {
    fn now(&mut self) -> u32 {
        self.now
    }

    fn set_alarm(&mut self, _at: u32) {}

    fn get_alarm(&mut self) -> u32 {
        0
    }

    fn enable(&mut self) {}

    fn disable(&mut self) {}

    fn frequency(&self) -> u32 {
        1_000_000
    }
}

fn push_le16(v: &mut Vec<u8>, x: u16) {
    v.push((x & 0xFF) as u8);
    v.push((x >> 8) as u8);
}

fn push_le32(v: &mut Vec<u8>, x: u32) {
    v.push((x & 0xFF) as u8);
    v.push(((x >> 8) & 0xFF) as u8);
    v.push(((x >> 16) & 0xFF) as u8);
    v.push(((x >> 24) & 0xFF) as u8);
}

fn entry(total_length: u32, min_ram: u32) -> Vec<u8> {
    let mut e = Vec::new();
    push_le16(&mut e, 2);
    push_le16(&mut e, 36);
    push_le32(&mut e, total_length);
    push_le32(&mut e, 3);
    push_le32(&mut e, 36);
    push_le32(&mut e, 40);
    push_le32(&mut e, min_ram);
    push_le32(&mut e, 0xFFFF_FFFF);
    push_le32(&mut e, 0xFFFF_FFFF);
    push_le32(&mut e, 0);
    while e.len() < total_length as usize {
        e.push(0);
    }
    e
}

fn loaded_slots(n: usize) -> (Kernel, ProcessSlots) {
    let mut kernel = Kernel::new();
    let mut chip = SimChip;
    let mut image = Vec::new();
    for _ in 0..n {
        image.extend_from_slice(&entry(256, 512));
    }
    let mut slots = ProcessSlots::new(n);
    let r = load_processes(
        &mut kernel,
        &mut chip,
        &mut (),
        &image,
        0x0004_0000,
        MemoryRegion { start: 0x2000_0000, size: 65536 },
        &mut slots,
        FaultResponse::Stop,
    );
    assert_eq!(r, Ok::<(), ProcessLoadError>(()));
    (kernel, slots)
}

#[test]
fn priority_dispatcher_picks_the_first_ready_slot() {
    // Head of the array wins, every decision anew.
    let (mut kernel, mut slots) = loaded_slots(3);
    let sched = RoundRobinSched::new();
    assert_eq!(sched.dispatcher(&slots), Some(0));
    // Drain slot 0 so it is no longer ready: slot 1 is next in line.
    let mut p0 = slots.take(0).unwrap();
    p0.dequeue_task(&mut kernel).unwrap();
    slots.put(0, Some(p0));
    assert_eq!(sched.dispatcher(&slots), Some(1));
    // A lower slot becoming ready again preempts the scan order: slot 0
    // starves everything behind it for as long as it stays ready.
    let mut p0 = slots.take(0).unwrap();
    p0.enqueue_task(
        &mut kernel,
        kernel_core::task::Task::FunctionCall(FunctionCall {
            source: kernel_core::task::FunctionCallSource::Kernel,
            argument0: 0,
            argument1: 0,
            argument2: 0,
            argument3: 0,
            pc: 0,
        }),
    );
    slots.put(0, Some(p0));
    assert_eq!(sched.dispatcher(&slots), Some(0));
}

#[test]
fn priority_dispatcher_reports_nothing_ready() {
    let (mut kernel, mut slots) = loaded_slots(2);
    for i in 0..2 {
        let mut p = slots.take(i).unwrap();
        p.dequeue_task(&mut kernel).unwrap();
        slots.put(i, Some(p));
    }
    let sched = RoundRobinSched::new();
    assert_eq!(sched.dispatcher(&slots), None);
}

#[test]
fn priority_finalizer_wraps_the_cursor() {
    let mut sched = RoundRobinSched::new();
    let node = RoundRobinProcessNode::new(AppId::new(1, 0));
    assert_eq!(node.appid.index, 0);
    assert_eq!(sched.running, 0);
    sched.finalizer(3);
    assert_eq!(sched.running, 1);
    sched.finalizer(3);
    assert_eq!(sched.running, 2);
    sched.finalizer(3);
    assert_eq!(sched.running, 0);
}

fn kernel_work(duration: u32, deadline: u32) -> Task {
    Task::Kernel(KernelWork {
        work_type: KernelTask::SystemCall(Syscall::YIELD),
        duration,
        deadline,
    })
}

#[test]
fn wcet_table_looks_up_by_kind() {
    let wcet = WcetTable { system_call_us: 40, top_half_interrupt_us: 10, bottom_half_interrupt_us: 90 };
    assert_eq!(wcet.lookup(&KernelTask::SystemCall(Syscall::YIELD)), 40);
    assert_eq!(wcet.lookup(&KernelTask::TopHalfInterrupt { interrupt: 3 }), 10);
    assert_eq!(wcet.lookup(&KernelTask::BottomHalfInterrupt { interrupt: 3 }), 90);
}

fn sched_with_tasks(now: u32, tasks: Vec<Task>) -> SecureTimeSched<FixedAlarm> {
    let wcet = WcetTable { system_call_us: 40, top_half_interrupt_us: 10, bottom_half_interrupt_us: 90 };
    let mut sched = SecureTimeSched::new(FixedAlarm { now }, wcet);
    for t in tasks {
        sched.ready_tasks.push(STTaskNode::new(Some(t)));
    }
    sched
}

#[test]
fn slack_admission_respects_deadlines() {
    // One kernel task of 100us due at 2000: at time 0 a 1000us grant still
    // fits (0 + 1000 + 100 <= 2000); at time 1000 it no longer does.
    let mut sched = sched_with_tasks(0, vec![kernel_work(100, 2000)]);
    assert!(sched.can_afford_slack(1000));
    let mut late = sched_with_tasks(1000, vec![kernel_work(100, 2000)]);
    assert!(!late.can_afford_slack(1000));
}

#[test]
fn most_urgent_task_has_the_earliest_deadline() {
    let sched = sched_with_tasks(
        0,
        vec![
            kernel_work(10, 5000),
            kernel_work(10, 1500),
            Task::ReadyProcess(AppId::new(1, 0)),
            kernel_work(10, 3000),
        ],
    );
    match sched.get_most_urgent_task() {
        Some(Task::Kernel(w)) => assert_eq!(w.deadline, 1500),
        _ => panic!("the most urgent task is the kernel work due at 1500"),
    }
}

#[test]
fn ready_processes_rotate_round_robin() {
    let a = AppId::new(1, 0);
    let b = AppId::new(2, 1);
    let mut sched = sched_with_tasks(
        0,
        vec![Task::ReadyProcess(a), Task::ReadyProcess(b)],
    );
    match sched.get_next_ready_process() {
        Some(Task::ReadyProcess(id)) => assert_eq!(id, a),
        _ => panic!("a ready process is waiting"),
    }
    match sched.get_next_ready_process() {
        Some(Task::ReadyProcess(id)) => assert_eq!(id, b),
        _ => panic!("a ready process is waiting"),
    }
    match sched.get_next_ready_process() {
        Some(Task::ReadyProcess(id)) => assert_eq!(id, a),
        _ => panic!("selection is round-robin"),
    }
}

#[test]
fn deadline_work_preempts_slack_grants() {
    // With an imminent deadline the scheduler refuses slack and picks the
    // urgent task instead of the ready process.
    let urgent = kernel_work(900, 1000);
    let mut sched = sched_with_tasks(
        0,
        vec![Task::ReadyProcess(AppId::new(1, 0)), urgent],
    );
    assert!(sched.no_deadlines_processes_waiting());
    assert!(!sched.can_afford_slack(DEFAULT_TIMESLICE_US));
    match sched.schedule_next() {
        Some(Task::Kernel(w)) => assert_eq!(w.deadline, 1000),
        _ => panic!("the urgent kernel task must run first"),
    }
    // The decision surface reports kernel work as a sleep attempt, which
    // the board services before sleeping.
    assert_eq!(sched.next(), SchedulingDecision::TrySleep);
    assert!(sched.do_kernel_work_now());
}

#[test]
fn slack_grants_go_to_ready_processes() {
    let far = kernel_work(100, 1_000_000);
    let a = AppId::new(7, 2);
    let mut sched = sched_with_tasks(0, vec![far, Task::ReadyProcess(a)]);
    assert!(sched.can_afford_slack(DEFAULT_TIMESLICE_US));
    match sched.next() {
        SchedulingDecision::RunProcess { appid, timeslice, not_before } => {
            assert_eq!(appid, a);
            assert_eq!(timeslice, Some(DEFAULT_TIMESLICE_US));
            assert_eq!(not_before, None);
        }
        SchedulingDecision::TrySleep => panic!("slack fits, the process runs"),
    }
}

#[test]
fn result_delivery_waits_for_its_deadline() {
    let delivery = Task::UserspaceResultDelivery(UserspaceResult {
        appid: AppId::new(3, 1),
        result: ReturnCode::SUCCESS,
        deadline: 4000,
    });
    let mut sched = sched_with_tasks(0, vec![delivery]);
    match sched.next() {
        SchedulingDecision::RunProcess { appid, not_before, .. } => {
            assert_eq!(appid, AppId::new(3, 1));
            assert_eq!(not_before, Some(4000));
        }
        SchedulingDecision::TrySleep => panic!("the delivery must be scheduled"),
    }
}

#[test]
fn execution_time_is_charged_against_the_grant() {
    let mut sched = sched_with_tasks(0, vec![]);
    assert_eq!(sched.time_remaining, DEFAULT_TIMESLICE_US);
    sched.result(StoppedExecutingReason::Interrupted, Some(300));
    assert_eq!(sched.time_remaining, DEFAULT_TIMESLICE_US - 300);
    assert!(sched.last_rescheduled);
    sched.result(StoppedExecutingReason::TimesliceExpired, Some(5000));
    assert_eq!(sched.time_remaining, 0);
    assert!(!sched.last_rescheduled);
}

#[test]
fn component_preallocates_the_task_lists() {
    let wcet = WcetTable { system_call_us: 40, top_half_interrupt_us: 10, bottom_half_interrupt_us: 90 };
    let component = SecureTimeComponent::new(FixedAlarm { now: 0 }, wcet);
    let sched = component.finalize();
    assert_eq!(sched.ready_tasks.len(), MAX_TASKS);
    assert_eq!(sched.potential_tasks.len(), MAX_TASKS);
    assert!(sched.ready_tasks.iter().all(|n| n.task.is_none()));
}

#[test]
fn empty_scheduler_tries_to_sleep() {
    let mut sched = sched_with_tasks(0, vec![]);
    assert_eq!(sched.next(), SchedulingDecision::TrySleep);
    assert!(!sched.no_deadlines_processes_waiting());
    assert_eq!(sched.get_most_urgent_task(), None);
}
