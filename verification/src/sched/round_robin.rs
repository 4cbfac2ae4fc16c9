//! Round-robin scheduler with interrupt handling.
//!
//! When a hardware interrupt arrives while a userspace process executes, the
//! scheduler stops servicing the process and lets the board handle the
//! bottom half of the interrupt. To keep timeslice use fair, the countdown
//! is paused and the same process is resumed with its remaining time on the
//! next pass, instead of losing the rest of its quantum.
//!
//! Selection is strict rotation: the ready queue's head runs, and after a
//! full timeslice the head moves to the tail. Fairness needs no further
//! mechanism: over any `N` consecutive full-timeslice rounds of an
//! `N`-process queue, every process is selected exactly once
//! ([`lemma_round_robin_fairness`]).

use vstd::prelude::*;

use crate::platform::mpu::Mpu;
use crate::platform::systick::SysTick;
use crate::platform::{Chip, Ipc, Platform};
use crate::platform::systick::Alarm;
use crate::process::{Process, ProcessSlots, ProcessType, State};
use crate::sched::{Kernel, Scheduler};
use crate::task::{AppId, ContextSwitchReason, Syscall};

verus! {

/// How long a process may run before being preempted, in microseconds.
pub const DEFAULT_TIMESLICE_US: u32 = 10000;

/// Skip rescheduling a process whose quantum has nearly run out.
pub const MIN_QUANTA_THRESHOLD_US: u32 = 500;

/// Most kernel decisions (context switches and task dispatches) one quantum
/// may take: the model's bound on a servicing pass, alongside the hardware
/// countdown that bounds it in time on a board.
pub const QUANTUM_DECISION_BUDGET: usize = 4096;

/// A node in the scheduler's ready queue.
pub struct RRProcessNode {
    /// The process the node stands for.
    pub appid: AppId,
}

impl RRProcessNode {
    /// A queue node for the given process.
    pub fn new(appid: AppId) -> (r: RRProcessNode)
        ensures
            r.appid == appid,
    {
        RRProcessNode { appid }
    }
}

/// The queue rotated one step: the head moves to the tail.
pub open spec fn spec_rotate_once(q: Seq<AppId>) -> Seq<AppId> {
    q.drop_first().push(q[0])
}

/// The queue rotated `k` steps.
pub open spec fn spec_rotations(q: Seq<AppId>, k: nat) -> Seq<AppId>
    decreases k,
{
    if k == 0 {
        q
    } else {
        spec_rotate_once(spec_rotations(q, (k - 1) as nat))
    }
}

/// Rotation preserves the queue's length.
pub proof fn lemma_rotations_len(q: Seq<AppId>, k: nat)
    requires
        q.len() > 0,
    ensures
        spec_rotations(q, k).len() == q.len(),
    decreases k,
{
    if k > 0 {
        lemma_rotations_len(q, (k - 1) as nat);
    }
}

/// After `k` full-timeslice rounds, the queue holds the original processes
/// shifted by `k`: position `i` holds the process originally at
/// `(i + k) mod N`.
pub proof fn lemma_rotations_index(q: Seq<AppId>, k: nat, i: int)
    requires
        q.len() > 0,
        0 <= i < q.len(),
    ensures
        spec_rotations(q, k)[i] == q[(i + k) % (q.len() as int)],
    decreases k,
{
    let n = q.len() as int;
    if k == 0 {
        assert(i % n == i) by {
            vstd::arithmetic::div_mod::lemma_small_mod(i as nat, n as nat);
        }
    } else {
        let prev = spec_rotations(q, (k - 1) as nat);
        lemma_rotations_len(q, (k - 1) as nat);
        if i < n - 1 {
            lemma_rotations_index(q, (k - 1) as nat, i + 1);
            assert(spec_rotations(q, k)[i] == prev[i + 1]);
            assert((i + 1 + (k - 1)) == (i + k));
        } else {
            lemma_rotations_index(q, (k - 1) as nat, 0);
            assert(spec_rotations(q, k)[i] == prev[0]);
            assert((0 + (k - 1)) % n == (i + k) % n) by {
                vstd::arithmetic::div_mod::lemma_mod_add_multiples_vanish(k - 1, n);
                assert(i + k == (k - 1) + n);
            }
        }
    }
}

/// Round-robin fairness: with `N` ready processes each giving the processor
/// back every round, the head of round `k` is the process at position
/// `k mod N` of the original queue. Over any `N` consecutive rounds every
/// process is therefore selected exactly once before any repeats, for as
/// many rounds as scheduling goes on.
pub proof fn lemma_round_robin_fairness(q: Seq<AppId>, k1: nat, k2: nat)
    requires
        q.len() > 0,
        k1 % (q.len() as nat) != k2 % (q.len() as nat),
    ensures
        spec_rotations(q, k1)[0] == q[(k1 % (q.len() as nat)) as int],
        spec_rotations(q, k2)[0] == q[(k2 % (q.len() as nat)) as int],
{
    let n = q.len() as int;
    lemma_rotations_index(q, k1, 0);
    lemma_rotations_index(q, k2, 0);
    assert((0 + k1 as int) % n == (k1 as int) % n);
    assert((0 + k2 as int) % n == (k2 as int) % n);
}

/// Round-robin scheduler.
pub struct RoundRobinSched {
    /// The ready queue: the head is scheduled next.
    pub processes: Vec<RRProcessNode>,
}

impl RoundRobinSched {
    /// The identifiers in the ready queue, in order.
    pub open spec fn spec_queue(&self) -> Seq<AppId> {
        self.processes@.map_values(|n: RRProcessNode| n.appid)
    }

    /// A scheduler with an empty ready queue.
    pub fn new() -> (r: RoundRobinSched)
        ensures
            r.spec_queue().len() == 0,
    {
        RoundRobinSched { processes: Vec::new() }
    }

    /// Rotate the ready queue one step: the head moves to the tail.
    pub fn rotate_queue(&mut self)
        requires
            old(self).spec_queue().len() > 0,
        ensures
            final(self).spec_queue() == spec_rotate_once(old(self).spec_queue()),
    {
        let head = self.processes.remove(0);
        self.processes.push(head);
        proof {
            assert(self.spec_queue() =~= spec_rotate_once(old(self).spec_queue()));
        }
    }

    /// Service one process for one quantum.
    ///
    /// The countdown is armed with a full timeslice — or, when the process
    /// is being rescheduled after an interruption, left to resume with the
    /// time it had left. The process is then serviced repeatedly: a running
    /// process is switched into; a yielded or unstarted process has its
    /// next queued task dispatched. Servicing stops when an interrupt needs
    /// handling, when the quantum is spent (in time or in the model's
    /// decision budget), when the process has nothing to run, or when it
    /// stops or faults; the return reason (`None` when the process simply
    /// has nothing left) tells the caller why. After an interruption the
    /// countdown is reloaded with the remaining time for the next pass.
    pub fn do_process<P: Platform, C: Chip, M: Mpu, S: SysTick, I: Ipc>(
        &self,
        kernel: &mut Kernel,
        process: &mut Process,
        platform: &mut P,
        chip: &mut C,
        mpu: &mut M,
        systick: &mut S,
        ipc: &mut I,
        rescheduled: bool,
    ) -> (r: Option<ContextSwitchReason>)
        requires
            old(process).wf(),
        ensures
            final(process).wf(),
            final(kernel).spec_grant_count() == old(kernel).spec_grant_count(),
    {
        if !rescheduled {
            systick.reset();
            systick.start_timer(DEFAULT_TIMESLICE_US);
            systick.config_interrupts(false);
        } else {
            // Resume with the remaining time from when it was interrupted.
            systick.config_interrupts(false);
        }
        let mut switch_reason_opt: Option<ContextSwitchReason> = None;
        let mut remaining: u32 = 0;
        let mut budget: usize = QUANTUM_DECISION_BUDGET;

        loop
            invariant
                process.wf(),
                kernel.spec_grant_count() == old(kernel).spec_grant_count(),
            ensures
                process.wf(),
                kernel.spec_grant_count() == old(kernel).spec_grant_count(),
            decreases budget,
        {
            if chip.has_pending_interrupts() {
                break;
            }
            if budget == 0 || systick.overflowed() || !systick.greater_than(
                MIN_QUANTA_THRESHOLD_US,
            ) {
                switch_reason_opt = Some(ContextSwitchReason::TimesliceExpired);
                process.debug_timeslice_expired();
                break;
            }
            budget = budget - 1;

            let state = process.get_state();
            match state {
                State::Running => {
                    // The process expects to be running: set up protection
                    // and switch to it.
                    process.setup_mpu(mpu);
                    mpu.enable_mpu();
                    systick.config_interrupts(true);
                    let context_switch_reason = process.switch_to(chip);
                    remaining = systick.get_value();
                    systick.config_interrupts(false);
                    mpu.disable_mpu();
                    switch_reason_opt = context_switch_reason;

                    // The process is back in the kernel: see why and handle
                    // it.
                    let appid = process.appid();
                    kernel.process_return(
                        appid,
                        context_switch_reason,
                        process,
                        platform,
                        chip,
                        mpu,
                    );
                    match context_switch_reason {
                        Some(ContextSwitchReason::SyscallFired { syscall: Syscall::YIELD }) => {
                            // Queued upcalls may already be waiting; keep
                            // servicing without a fresh time grant.
                        },
                        Some(ContextSwitchReason::TimesliceExpired) => {
                            break;
                        },
                        Some(ContextSwitchReason::Interrupted) => {
                            // Handle the bottom half of the interrupt.
                            break;
                        },
                        _ => {},
                    }
                },
                State::Yielded | State::Unstarted => {
                    // The process waits for an upcall; dispatch the next
                    // queued task, if any.
                    match process.dequeue_task(kernel) {
                        None => {
                            break;
                        },
                        Some(cb) => {
                            kernel.handle_callback(process, chip, mpu, ipc, cb);
                        },
                    }
                },
                _ => {
                    // Stopped, faulted or terminated processes are not
                    // serviced.
                    break;
                },
            }
        }
        match switch_reason_opt {
            Some(ContextSwitchReason::Interrupted) => {
                // Store the remaining time for the resumed pass.
                systick.reset();
                systick.start_timer(remaining);
            },
            _ => (),
        }
        switch_reason_opt
    }

}

impl Scheduler for RoundRobinSched {
    /// The ready queue needs no invariant of its own.
    open spec fn sched_wf(&self) -> bool {
        true
    }

    /// Each decision services the process at the head of the ready queue
    /// for one quantum, then rotates the queue — except after an
    /// interruption, where the same process is resumed next with its
    /// remaining time. The timer bounds each quantum; this scheduler has no
    /// use for the alarm.
    ///
    /// The loop only ever rotates the ready queue: afterwards the queue is
    /// some rotation of what it was, so no process is dropped, duplicated or
    /// reordered, and [`lemma_round_robin_fairness`] applies to the rounds
    /// it ran.
    fn kernel_loop<P: Platform, C: Chip, M: Mpu, S: SysTick, A: Alarm, I: Ipc>(
        &mut self,
        kernel: &mut Kernel,
        slots: &mut ProcessSlots,
        platform: &mut P,
        chip: &mut C,
        mpu: &mut M,
        systick: &mut S,
        alarm: &mut A,
        ipc: &mut I,
        iterations: usize,
    )
        ensures
            exists|k: nat|
                final(self).spec_queue() == #[trigger] spec_rotations(old(self).spec_queue(), k),
    {
        chip.service_pending_interrupts();

        proof {
            assert(self.spec_queue() == spec_rotations(old(self).spec_queue(), 0));
        }
        let ghost mut rounds: nat = 0;
        let mut reschedule = false;
        let mut n = iterations;
        while n > 0
            invariant
                slots.wf(),
                slots@.len() == old(slots)@.len(),
                self.spec_queue() == spec_rotations(old(self).spec_queue(), rounds),
            ensures
                self.spec_queue() == spec_rotations(old(self).spec_queue(), rounds),
            decreases n,
        {
            n = n - 1;
            if chip.has_pending_interrupts() || kernel.processes_blocked()
                || kernel.has_halted() {
                return;
            }
            if self.processes.len() == 0 {
                return;
            }
            let next = self.processes[0].appid;
            let last_rescheduled = reschedule;
            reschedule = false;
            match slots.take(next.index) {
                Some(mut process) => {
                    let switch_reason = self.do_process(
                        kernel,
                        &mut process,
                        platform,
                        chip,
                        mpu,
                        systick,
                        ipc,
                        last_rescheduled,
                    );
                    if next.index < slots.len() {
                        slots.put(next.index, Some(process));
                    }
                    reschedule = match switch_reason {
                        Some(ContextSwitchReason::Interrupted) => true,
                        _ => false,
                    };
                },
                None => (),
            }
            if !reschedule {
                self.rotate_queue();
                proof {
                    rounds = rounds + 1;
                }
            }
        }
    }
}

} // verus!
