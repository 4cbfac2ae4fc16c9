//! Deadline-aware scheduler for safety-critical builds.
//!
//! Work is admitted against per-task worst-case execution times: when any
//! outstanding task has a deadline that spare time (slack) cannot cover, the
//! most urgent task runs; only when every deadline still fits does the
//! scheduler grant a slack timeslice to ready processes without deadlines,
//! round-robin among them.

use vstd::prelude::*;

use crate::error::ReturnCode;
use crate::platform::systick::Alarm;
use crate::task::{AppId, Syscall};

verus! {

/// Most tasks the scheduler tracks at once.
pub const MAX_TASKS: usize = 20;

/// How long a process may run before being preempted, in microseconds.
pub const DEFAULT_TIMESLICE_US: u32 = 1000;

/// Kinds of kernel work for which worst-case execution times are known.
#[derive(Copy, Clone, Debug, PartialEq, Eq, Structural)]
pub enum KernelTask {
    /// A deferred bottom-half handler of the given interrupt.
    BottomHalfInterrupt { interrupt: u8 },
    /// A top-half handler of the given interrupt.
    TopHalfInterrupt { interrupt: u8 },
    /// Servicing one system call.
    SystemCall(Syscall),
}

/// Non-preemptible in-kernel work with its execution-time budget and the
/// deadline it must finish by.
#[derive(Copy, Clone, Debug, PartialEq, Eq, Structural)]
pub struct KernelWork {
    /// What the work is.
    pub work_type: KernelTask,
    /// Worst-case execution time in microseconds.
    pub duration: u32,
    /// Alarm time the work must finish by.
    pub deadline: u32,
}

/// A syscall result that must be delivered to a process at a deadline;
/// delivery is scheduled separately from the work that computed the result.
#[derive(Copy, Clone, Debug, PartialEq, Eq, Structural)]
pub struct UserspaceResult {
    /// The process to deliver to.
    pub appid: AppId,
    /// The value to deliver.
    pub result: ReturnCode,
    /// Alarm time at which to deliver it.
    pub deadline: u32,
}

/// The kinds of work this scheduler schedules.
#[derive(Copy, Clone, Debug, PartialEq, Eq, Structural)]
pub enum Task {
    /// Non-preemptible kernel work with a deadline.
    Kernel(KernelWork),
    /// Delivery of a result to a process at a deadline.
    UserspaceResultDelivery(UserspaceResult),
    /// A process ready to execute with no deadline: it has never started,
    /// or was preempted before making a system call.
    ReadyProcess(AppId),
}

/// The deadline and worst-case duration of a task, when it has one.
pub open spec fn spec_task_deadline(t: Task) -> Option<(u32, u32)> {
    match t {
        Task::Kernel(w) => Some((w.deadline, w.duration)),
        Task::UserspaceResultDelivery(u) => Some((u.deadline, DEFAULT_TIMESLICE_US)),
        Task::ReadyProcess(_) => None,
    }
}

/// Whether any node holds a ready process without a deadline.
pub open spec fn spec_has_ready_process(tasks: Seq<STTaskNode>) -> bool {
    exists|i: int|
        0 <= i < tasks.len() && (#[trigger] tasks[i].task matches Some(t) && t is ReadyProcess)
}

/// A node in the scheduler's task lists.
pub struct STTaskNode {
    /// The task the node holds, if any.
    pub task: Option<Task>,
}

impl STTaskNode {
    /// A node holding the given task.
    pub fn new(task: Option<Task>) -> (r: STTaskNode)
        ensures
            r.task == task,
    {
        STTaskNode { task }
    }
}

/// Worst-case execution times of the kinds of kernel work, from the board's
/// timing analysis.
#[derive(Copy, Clone, Debug, PartialEq, Eq, Structural)]
pub struct WcetTable {
    /// Worst-case time to service one system call, in microseconds.
    pub system_call_us: u32,
    /// Worst-case time of a top-half interrupt handler.
    pub top_half_interrupt_us: u32,
    /// Worst-case time of a bottom-half interrupt handler.
    pub bottom_half_interrupt_us: u32,
}

impl WcetTable {
    /// The worst-case execution time of the given kernel work.
    pub fn lookup(&self, task: &KernelTask) -> (r: u32)
        ensures
            task is SystemCall ==> r == self.system_call_us,
            task is TopHalfInterrupt ==> r == self.top_half_interrupt_us,
            task is BottomHalfInterrupt ==> r == self.bottom_half_interrupt_us,
    {
        match task {
            KernelTask::SystemCall(_) => self.system_call_us,
            KernelTask::TopHalfInterrupt { interrupt: _ } => self.top_half_interrupt_us,
            KernelTask::BottomHalfInterrupt { interrupt: _ } => self.bottom_half_interrupt_us,
        }
    }
}

/// What the scheduler decides to do next.
#[derive(Copy, Clone, Debug, PartialEq, Eq, Structural)]
pub enum SchedulingDecision {
    /// Run the process, for at most the timeslice if one is given, starting
    /// no earlier than `not_before` (the board waits out the gap).
    RunProcess { appid: AppId, timeslice: Option<u32>, not_before: Option<u32> },
    /// Nothing to run; the board may try to sleep.
    TrySleep,
}

/// Why a process stopped executing, as reported back to the scheduler.
#[derive(Copy, Clone, Debug, PartialEq, Eq, Structural)]
pub enum StoppedExecutingReason {
    /// The process has no more work queued.
    NoWorkLeft,
    /// The process ran out its timeslice.
    TimesliceExpired,
    /// A hardware interrupt preempted the process.
    Interrupted,
    /// The kernel preempted the process for its own work.
    KernelPreemption,
}

/// Whether spending `time_us` microseconds starting at `now` leaves every
/// deadline-carrying task in `tasks` able to finish by its deadline.
pub open spec fn spec_slack_fits(tasks: Seq<STTaskNode>, now: u32, time_us: u32) -> bool {
    forall|i: int|
        0 <= i < tasks.len() ==> match #[trigger] tasks[i].task {
            Some(t) => match spec_task_deadline(t) {
                Some((deadline, duration)) => now + time_us + duration <= deadline,
                None => true,
            },
            None => true,
        }
}

/// Check that spending `time_us` microseconds starting at `now` still lets
/// every deadline-carrying task in `tasks` finish by its deadline: the
/// admission check behind granting slack time to no-deadline work.
pub fn slack_fits(tasks: &Vec<STTaskNode>, now: u32, time_us: u32) -> (r: bool)
    ensures
        r == spec_slack_fits(tasks@, now, time_us),
{
    let mut i: usize = 0;
    while i < tasks.len()
        invariant
            i <= tasks@.len(),
            forall|j: int|
                0 <= j < i ==> match #[trigger] tasks@[j].task {
                    Some(t) => match spec_task_deadline(t) {
                        Some((deadline, duration)) => now + time_us + duration <= deadline,
                        None => true,
                    },
                    None => true,
                },
        decreases tasks@.len() - i,
    {
        let fits = match &tasks[i].task {
            Some(Task::Kernel(w)) => (now as u64) + (time_us as u64) + (w.duration as u64) <= (
            w.deadline as u64),
            Some(Task::UserspaceResultDelivery(u)) => (now as u64) + (time_us as u64) + (
            DEFAULT_TIMESLICE_US as u64) <= (u.deadline as u64),
            Some(Task::ReadyProcess(_)) => true,
            None => true,
        };
        if !fits {
            return false;
        }
        i = i + 1;
    }
    true
}

/// The most urgent ready task: scanning the nodes in order, a
/// deadline-carrying task replaces the best so far only with a strictly
/// earlier deadline, so the first task of minimal deadline wins. `None` when
/// no ready task carries a deadline.
pub open spec fn spec_most_urgent(tasks: Seq<STTaskNode>) -> Option<Task>
    decreases tasks.len(),
{
    if tasks.len() == 0 {
        None
    } else {
        let prefix_best = spec_most_urgent(tasks.drop_last());
        match tasks.last().task {
            Some(t) => match spec_task_deadline(t) {
                Some(d) => match prefix_best {
                    None => Some(t),
                    Some(b) => if d.0 < spec_task_deadline(b)->Some_0.0 {
                        Some(t)
                    } else {
                        Some(b)
                    },
                },
                None => prefix_best,
            },
            None => prefix_best,
        }
    }
}

/// The most urgent task, when one exists, is a queued deadline-carrying
/// task with no earlier deadline anywhere in the queue; when none exists,
/// no queued task carries a deadline.
pub proof fn lemma_most_urgent_minimal(tasks: Seq<STTaskNode>)
    ensures
        spec_most_urgent(tasks) matches Some(t) ==> {
            &&& spec_task_deadline(t) is Some
            &&& exists|i: int| 0 <= i < tasks.len() && #[trigger] tasks[i].task == Some(t)
            &&& forall|i: int|
                0 <= i < tasks.len() ==> match #[trigger] tasks[i].task {
                    Some(u) => match spec_task_deadline(u) {
                        Some(other) => spec_task_deadline(t)->Some_0.0 <= other.0,
                        None => true,
                    },
                    None => true,
                }
        },
        spec_most_urgent(tasks) is None ==> forall|i: int|
            0 <= i < tasks.len() ==> match #[trigger] tasks[i].task {
                Some(u) => spec_task_deadline(u) is None,
                None => true,
            },
    decreases tasks.len(),
{
    if tasks.len() > 0 {
        lemma_most_urgent_minimal(tasks.drop_last());
        assert forall|i: int| 0 <= i < tasks.len() - 1 implies tasks.drop_last()[i]
            == #[trigger] tasks[i] by {}
        match spec_most_urgent(tasks) {
            Some(t) => {
                if spec_most_urgent(tasks.drop_last()) == Some(t) {
                    let j = choose|j: int|
                        0 <= j < tasks.drop_last().len() && #[trigger] tasks.drop_last()[j].task
                            == Some(t);
                    assert(tasks[j].task == Some(t));
                } else {
                    assert(tasks[tasks.len() - 1].task == Some(t));
                }
            },
            None => {},
        }
    }
}

/// Deadline-aware scheduler.
pub struct SecureTimeSched<A: Alarm> {
    /// The alarm that supplies the deadline clock.
    pub alarm: A,
    /// Time left of the current slack grant, in microseconds.
    pub time_remaining: u32,
    /// Tasks ready to execute, in arrival order.
    pub ready_tasks: Vec<STTaskNode>,
    /// Tasks that an interrupt could make ready at any time.
    pub potential_tasks: Vec<STTaskNode>,
    /// Whether the last decision resumed an interrupted process.
    pub last_rescheduled: bool,
    /// The board's worst-case execution times.
    pub wcet: WcetTable,
}

impl<A: Alarm> SecureTimeSched<A> {
    /// A scheduler with no tasks yet, granting full slack timeslices.
    pub fn new(alarm: A, wcet: WcetTable) -> (r: SecureTimeSched<A>)
        ensures
            r.alarm == alarm,
            r.time_remaining == DEFAULT_TIMESLICE_US,
            r.ready_tasks@.len() == 0,
            r.potential_tasks@.len() == 0,
            !r.last_rescheduled,
            r.wcet == wcet,
    {
        SecureTimeSched {
            alarm,
            time_remaining: DEFAULT_TIMESLICE_US,
            ready_tasks: Vec::new(),
            potential_tasks: Vec::new(),
            last_rescheduled: false,
            wcet,
        }
    }

    /// Whether the scheduler can spend `time_us` microseconds on new work
    /// without any outstanding task missing its deadline.
    pub fn can_afford_slack(&mut self, time_us: u32) -> (r: bool)
        ensures
            final(self).ready_tasks@ == old(self).ready_tasks@,
            final(self).potential_tasks@ == old(self).potential_tasks@,
            final(self).time_remaining == old(self).time_remaining,
            final(self).last_rescheduled == old(self).last_rescheduled,
            final(self).wcet == old(self).wcet,
    {
        let now = self.alarm.now();
        slack_fits(&self.ready_tasks, now, time_us)
    }

    /// The most urgent outstanding task: the deadline-carrying ready task
    /// with the earliest deadline, to be serviced next so no deadline is
    /// missed. `None` when no ready task carries a deadline.
    pub fn get_most_urgent_task(&self) -> (r: Option<Task>)
        ensures
            r == spec_most_urgent(self.ready_tasks@),
    {
        let ghost tasks = self.ready_tasks@;
        let mut best: Option<Task> = None;
        let mut best_deadline: u32 = 0;
        let mut i: usize = 0;
        proof {
            assert(tasks.subrange(0, 0) =~= Seq::<STTaskNode>::empty());
        }
        while i < self.ready_tasks.len()
            invariant
                i <= self.ready_tasks@.len(),
                tasks == self.ready_tasks@,
                best == spec_most_urgent(tasks.subrange(0, i as int)),
                best matches Some(t) ==> spec_task_deadline(t) matches Some(d) && d.0
                    == best_deadline,
            decreases self.ready_tasks@.len() - i,
        {
            let candidate = self.ready_tasks[i].task;
            let deadline = match candidate {
                Some(Task::Kernel(w)) => Some(w.deadline),
                Some(Task::UserspaceResultDelivery(u)) => Some(u.deadline),
                _ => None,
            };
            proof {
                let sub0 = tasks.subrange(0, i as int);
                let sub1 = tasks.subrange(0, i + 1);
                assert(sub1.drop_last() =~= sub0);
                assert(sub1.last() == tasks[i as int]);
            }
            match deadline {
                Some(d) => {
                    let better = match best {
                        None => true,
                        Some(_) => d < best_deadline,
                    };
                    if better {
                        best = candidate;
                        best_deadline = d;
                    }
                },
                None => (),
            }
            i = i + 1;
        }
        proof {
            assert(tasks.subrange(0, tasks.len() as int) =~= tasks);
        }
        best
    }

    /// A ready process with no deadline, chosen round-robin: the first such
    /// task in queue order, moved to the back of the queue for next time.
    pub fn get_next_ready_process(&mut self) -> (r: Option<Task>)
        ensures
            r matches Some(t) ==> t is ReadyProcess,
            r is Some <==> exists|i: int|
                0 <= i < old(self).ready_tasks@.len() && (#[trigger] old(
                    self,
                ).ready_tasks@[i].task matches Some(t) && t is ReadyProcess),
    {
        let count = self.ready_tasks.len();
        let mut i: usize = 0;
        let mut found: usize = count;
        while i < count
            invariant
                i <= count,
                count == self.ready_tasks@.len(),
                self.ready_tasks@ == old(self).ready_tasks@,
                found <= count,
                found < count ==> (self.ready_tasks@[found as int].task matches Some(t)
                    && t is ReadyProcess),
                found == count ==> forall|j: int|
                    0 <= j < i ==> !(#[trigger] self.ready_tasks@[j].task matches Some(t)
                        && t is ReadyProcess),
            decreases count - i,
        {
            if found == count {
                let is_ready_process = match self.ready_tasks[i].task {
                    Some(Task::ReadyProcess(_)) => true,
                    _ => false,
                };
                if is_ready_process {
                    found = i;
                }
            }
            i = i + 1;
        }
        if found < count {
            let node = self.ready_tasks.remove(found);
            let task = node.task;
            self.ready_tasks.push(node);
            task
        } else {
            None
        }
    }

    /// Whether any ready process without a deadline is waiting.
    pub fn no_deadlines_processes_waiting(&self) -> (r: bool)
        ensures
            r == spec_has_ready_process(self.ready_tasks@),
    {
        let count = self.ready_tasks.len();
        let mut i: usize = 0;
        while i < count
            invariant
                i <= count,
                count == self.ready_tasks@.len(),
                forall|j: int|
                    0 <= j < i ==> !(#[trigger] self.ready_tasks@[j].task matches Some(t)
                        && t is ReadyProcess),
            decreases count - i,
        {
            let is_ready_process = match self.ready_tasks[i].task {
                Some(Task::ReadyProcess(_)) => true,
                _ => false,
            };
            if is_ready_process {
                return true;
            }
            i = i + 1;
        }
        false
    }

    /// The next task to run: when no-deadline processes wait and the slack
    /// admission check passes, one of them (round-robin); otherwise the most
    /// urgent deadline task. With no ready no-deadline process waiting, the
    /// alarm is never consulted and the answer is exactly the most urgent
    /// queued task.
    pub fn schedule_next(&mut self) -> (r: Option<Task>)
        ensures
            r matches Some(t) && t is ReadyProcess ==> spec_has_ready_process(
                old(self).ready_tasks@,
            ),
            !spec_has_ready_process(old(self).ready_tasks@) ==> r == spec_most_urgent(
                old(self).ready_tasks@,
            ) && *final(self) == *old(self),
    {
        if self.no_deadlines_processes_waiting() && self.can_afford_slack(DEFAULT_TIMESLICE_US) {
            self.get_next_ready_process()
        } else {
            proof {
                lemma_most_urgent_minimal(self.ready_tasks@);
            }
            self.get_most_urgent_task()
        }
    }

    /// Decide what to do next: run a process (at its deadline, for result
    /// deliveries), or let the board try to sleep — also the answer when the
    /// next work is the kernel's own, which the board services before
    /// sleeping.
    ///
    /// With no ready no-deadline process waiting, the decision is a pure
    /// function of the queued tasks: the most urgent deadline task decides —
    /// a result delivery runs its process no earlier than its deadline,
    /// kernel work or an empty queue means a sleep attempt.
    pub fn next(&mut self) -> (r: SchedulingDecision)
        ensures
            !spec_has_ready_process(old(self).ready_tasks@) ==> *final(self) == *old(self)
                && match spec_most_urgent(old(self).ready_tasks@) {
                None => r == SchedulingDecision::TrySleep,
                Some(t) => match t {
                    Task::Kernel(w) => r == SchedulingDecision::TrySleep,
                    Task::UserspaceResultDelivery(u) => r == (SchedulingDecision::RunProcess {
                        appid: u.appid,
                        timeslice: Some(DEFAULT_TIMESLICE_US),
                        not_before: Some(u.deadline),
                    }),
                    Task::ReadyProcess(_) => true,
                },
            },
    {
        match self.schedule_next() {
            Some(Task::UserspaceResultDelivery(delivery)) => SchedulingDecision::RunProcess {
                appid: delivery.appid,
                timeslice: Some(DEFAULT_TIMESLICE_US),
                not_before: Some(delivery.deadline),
            },
            Some(Task::ReadyProcess(appid)) => SchedulingDecision::RunProcess {
                appid,
                timeslice: Some(DEFAULT_TIMESLICE_US),
                not_before: None,
            },
            Some(Task::Kernel(_)) => SchedulingDecision::TrySleep,
            None => SchedulingDecision::TrySleep,
        }
    }

    /// Record why the scheduled process stopped and how long it executed:
    /// the execution time is charged against the current slack grant, and an
    /// interruption marks the process for resumption.
    pub fn result(&mut self, reason: StoppedExecutingReason, execution_time_us: Option<u32>)
        ensures
            execution_time_us matches Some(us) ==> final(self).time_remaining as int == (
            if us < old(self).time_remaining {
                old(self).time_remaining - us
            } else {
                0int
            }),
            execution_time_us is None ==> final(self).time_remaining == old(self).time_remaining,
            final(self).last_rescheduled == (reason is Interrupted),
            final(self).ready_tasks@ == old(self).ready_tasks@,
            final(self).potential_tasks@ == old(self).potential_tasks@,
    {
        match execution_time_us {
            Some(us) => {
                if us < self.time_remaining {
                    self.time_remaining = self.time_remaining - us;
                } else {
                    self.time_remaining = 0;
                }
            },
            None => (),
        }
        self.last_rescheduled = match reason {
            StoppedExecutingReason::Interrupted => true,
            _ => false,
        };
    }

    /// Whether the kernel's own work is what must run next, so the board
    /// should service it before running any process. With no ready
    /// no-deadline process waiting this is decided by the queued tasks
    /// alone: exactly when the most urgent one is kernel work.
    pub fn do_kernel_work_now(&mut self) -> (r: bool)
        ensures
            !spec_has_ready_process(old(self).ready_tasks@) ==> *final(self) == *old(self) && r
                == (spec_most_urgent(old(self).ready_tasks@) matches Some(t) && t is Kernel),
    {
        match self.schedule_next() {
            Some(Task::Kernel(_)) => true,
            _ => false,
        }
    }
}

/// Builder that assembles a deadline-aware scheduler for a board: it
/// preallocates the task lists at their fixed capacity around the board's
/// alarm and timing table.
pub struct SecureTimeComponent<A: Alarm> {
    /// The alarm that will supply the deadline clock.
    pub alarm: A,
    /// The board's worst-case execution times.
    pub wcet: WcetTable,
}

impl<A: Alarm> SecureTimeComponent<A> {
    /// A builder over the board's alarm and timing table.
    pub fn new(alarm: A, wcet: WcetTable) -> (r: SecureTimeComponent<A>)
        ensures
            r.wcet == wcet,
    {
        SecureTimeComponent { alarm, wcet }
    }

    /// Build the scheduler, with both task lists preallocated to
    /// [`MAX_TASKS`] empty nodes.
    pub fn finalize(self) -> (r: SecureTimeSched<A>)
        ensures
            r.ready_tasks@.len() == MAX_TASKS,
            r.potential_tasks@.len() == MAX_TASKS,
            forall|i: int| 0 <= i < MAX_TASKS ==> (#[trigger] r.ready_tasks@[i]).task is None,
            r.wcet == self.wcet,
    {
        let mut sched = SecureTimeSched::new(self.alarm, self.wcet);
        let mut i: usize = 0;
        while i < MAX_TASKS
            invariant
                i <= MAX_TASKS,
                sched.ready_tasks@.len() == i,
                sched.potential_tasks@.len() == i,
                forall|j: int| 0 <= j < i ==> (#[trigger] sched.ready_tasks@[j]).task is None,
                sched.wcet == self.wcet,
            decreases MAX_TASKS - i,
        {
            sched.ready_tasks.push(STTaskNode::new(None));
            sched.potential_tasks.push(STTaskNode::new(None));
            i = i + 1;
        }
        sched
    }
}

} // verus!
