//! Multilevel feedback queue scheduler.
//!
//! Three priority queues are serviced highest first, round-robin within a
//! queue, with longer timeslices the lower the queue. A process that uses up
//! its time allotment at a level — counted across quanta, so yielding just
//! before expiry does not dodge it — moves down one queue, and after every
//! refresh period all processes move back to the top queue, so nothing
//! starves.
//!
//! Unlike the round-robin scheduler, interruptions do not suspend the
//! quantum: bottom halves are deferred until the process yields with no
//! queued work or its timeslice runs out.

use vstd::prelude::*;

use crate::platform::mpu::Mpu;
use crate::platform::systick::{Alarm, SysTick};
use crate::platform::{Chip, Ipc, Platform};
use crate::process::{Process, ProcessSlots, ProcessType, State};
use crate::sched::round_robin::QUANTUM_DECISION_BUDGET;
use crate::sched::{Kernel, ProcessContainer, Scheduler};
use crate::task::{ContextSwitchReason, Syscall};

verus! {

/// Number of priority levels.
pub const NUM_QUEUES: usize = 3;

/// Skip rescheduling a process whose quantum has nearly run out.
pub const MIN_QUANTA_THRESHOLD_US: u32 = 500;

/// How often all processes are restored to the top queue, in milliseconds.
pub const PRIORITY_REFRESH_PERIOD_MS: u32 = 5000;

/// A node tracking one process slot and the processor time the process has
/// used while in its current queue.
pub struct MLFQProcessNode {
    /// The slot of the process the node stands for, once one is loaded.
    pub process: Option<usize>,
    /// Processor time the process has used in its current queue, in
    /// microseconds. This counter — not wall-clock time — triggers
    /// demotion, and it resets on demotion and promotion.
    pub us_used_this_queue: u32,
}

impl MLFQProcessNode {
    /// An empty node, to be bound to a process slot when one is loaded.
    pub fn new() -> (r: MLFQProcessNode)
        ensures
            r.process is None,
            r.us_used_this_queue == 0,
    {
        MLFQProcessNode { process: None, us_used_this_queue: 0 }
    }
}

/// Whether the node is bound to a process in `slots` that is ready to
/// execute (it has queued tasks or expects to be running).
pub open spec fn spec_node_ready(slots: Seq<Option<Process>>, node: MLFQProcessNode) -> bool {
    node.process matches Some(idx) && 0 <= idx < slots.len() && (slots[idx as int] matches Some(p)
        && (p.tasks@.len() > 0 || p.state is Running))
}

/// Whether any node of the queue is bound to a ready process.
pub open spec fn spec_queue_has_ready(
    slots: Seq<Option<Process>>,
    queue: Seq<MLFQProcessNode>,
) -> bool {
    exists|j: int| 0 <= j < queue.len() && spec_node_ready(slots, #[trigger] queue[j])
}

/// How many nodes of the queue are bound to a process slot.
pub open spec fn spec_bound_nodes(queue: Seq<MLFQProcessNode>) -> int {
    queue.filter(|n: MLFQProcessNode| n.process is Some).len() as int
}

/// The nodes with their used-time counters reset, as promotion leaves them.
pub open spec fn spec_promoted(nodes: Seq<MLFQProcessNode>) -> Seq<MLFQProcessNode> {
    nodes.map_values(
        |n: MLFQProcessNode| MLFQProcessNode { process: n.process, us_used_this_queue: 0 },
    )
}

/// Whether `post` is `pre` rotated so that its first ready node — the one at
/// position `j`, with nothing ready before it — stands at the head.
pub open spec fn spec_rotated_to_first_ready(
    slots: Seq<Option<Process>>,
    pre: Seq<MLFQProcessNode>,
    post: Seq<MLFQProcessNode>,
    j: int,
) -> bool {
    &&& 0 <= j < pre.len()
    &&& spec_node_ready(slots, pre[j])
    &&& forall|k: int| 0 <= k < j ==> !spec_node_ready(slots, #[trigger] pre[k])
    &&& post == pre.subrange(j, pre.len() as int) + pre.subrange(0, j)
}

/// The three priority queues of process nodes. New and promoted processes
/// sit in queue 0, the top; demoted processes move down.
pub struct ProcessMultiQueues {
    /// The queues, highest priority first. Always exactly [`NUM_QUEUES`].
    pub queues: Vec<Vec<MLFQProcessNode>>,
    /// How many nodes have been bound to a process slot.
    pub num_procs: usize,
}

impl ProcessMultiQueues {
    /// There are always exactly [`NUM_QUEUES`] queues.
    pub open spec fn wf(&self) -> bool {
        self.queues@.len() == NUM_QUEUES
    }

    /// How many nodes all queues hold together.
    pub open spec fn spec_total_nodes(&self) -> int {
        self.queues@[0].len() + self.queues@[1].len() + self.queues@[2].len()
    }

    /// Queues for `node_count` process slots: the top queue holds one empty
    /// node per slot, the lower queues start empty.
    pub fn new(node_count: usize) -> (r: ProcessMultiQueues)
        ensures
            r.wf(),
            r.queues@[0].len() == node_count,
            r.queues@[1].len() == 0,
            r.queues@[2].len() == 0,
            r.num_procs == 0,
    {
        let mut top: Vec<MLFQProcessNode> = Vec::new();
        let mut i: usize = 0;
        while i < node_count
            invariant
                i <= node_count,
                top@.len() == i,
            decreases node_count - i,
        {
            top.push(MLFQProcessNode::new());
            i = i + 1;
        }
        let mut queues: Vec<Vec<MLFQProcessNode>> = Vec::new();
        queues.push(top);
        queues.push(Vec::new());
        queues.push(Vec::new());
        ProcessMultiQueues { queues, num_procs: 0 }
    }

    /// Bind the node numbered `idx` (counting across the queues in priority
    /// order) to the process in slot `proc_index`.
    pub fn load_process_with_id(&mut self, proc_index: Option<usize>, idx: usize)
        requires
            old(self).wf(),
        ensures
            final(self).wf(),
    {
        let q0_len = self.queues[0].len();
        let q1_len = self.queues[1].len();
        let q2_len = self.queues[2].len();
        if idx < q0_len {
            let queue = &mut self.queues[0];
            let mut node = queue.remove(idx);
            node.process = proc_index;
            queue.insert(idx, node);
        } else if idx - q0_len < q1_len {
            let queue = &mut self.queues[1];
            let mut node = queue.remove(idx - q0_len);
            node.process = proc_index;
            queue.insert(idx - q0_len, node);
        } else if idx - q0_len - q1_len < q2_len {
            let queue = &mut self.queues[2];
            let mut node = queue.remove(idx - q0_len - q1_len);
            node.process = proc_index;
            queue.insert(idx - q0_len - q1_len, node);
        } else {
            return;
        }
        if self.num_procs < usize::MAX {
            self.num_procs = self.num_procs + 1;
        }
    }

    /// The slot index of the process bound to the node at `position` of
    /// queue `queue_idx`, if both exist.
    pub fn get_node_process(&self, queue_idx: usize, position: usize) -> (r: Option<usize>)
        requires
            self.wf(),
        ensures
            queue_idx < NUM_QUEUES && position < self.queues@[queue_idx as int]@.len() ==> r
                == self.queues@[queue_idx as int]@[position as int].process,
    {
        if queue_idx < self.queues.len() {
            let queue = &self.queues[queue_idx];
            if position < queue.len() {
                queue[position].process
            } else {
                None
            }
        } else {
            None
        }
    }

    /// Find the highest-priority queue holding a node whose process is
    /// ready to execute, rotate that queue until the ready node is at its
    /// head, and return the queue's index.
    ///
    /// Returns `None`, changing nothing, exactly when no queued node is
    /// bound to a ready process. Otherwise the chosen queue is the highest
    /// one with a ready node, that queue ends up rotated so its first ready
    /// node is at the head, and no other queue is touched.
    pub fn get_next_ready_process_node(&mut self, slots: &ProcessSlots) -> (r: Option<usize>)
        requires
            old(self).wf(),
        ensures
            final(self).wf(),
            final(self).spec_total_nodes() == old(self).spec_total_nodes(),
            r is None <==> (forall|q: int|
                0 <= q < NUM_QUEUES ==> !spec_queue_has_ready(
                    slots@,
                    #[trigger] old(self).queues@[q]@,
                )),
            r is None ==> *final(self) == *old(self),
            r matches Some(queue_idx) ==> {
                &&& queue_idx < NUM_QUEUES
                &&& forall|q: int|
                    0 <= q < queue_idx ==> !spec_queue_has_ready(
                        slots@,
                        #[trigger] old(self).queues@[q]@,
                    )
                &&& forall|q: int|
                    0 <= q < NUM_QUEUES && q != queue_idx ==> final(self).queues@[q]@
                        == #[trigger] old(self).queues@[q]@
                &&& exists|j: int|
                    spec_rotated_to_first_ready(
                        slots@,
                        old(self).queues@[queue_idx as int]@,
                        #[trigger] final(self).queues@[queue_idx as int]@,
                        j,
                    )
                &&& final(self).queues@[queue_idx as int]@.len() > 0
                &&& spec_node_ready(slots@, final(self).queues@[queue_idx as int]@[0])
            },
    {
        let mut q: usize = 0;
        while q < NUM_QUEUES
            invariant
                q <= NUM_QUEUES,
                self.wf(),
                *self == *old(self),
                forall|q2: int|
                    0 <= q2 < q ==> !spec_queue_has_ready(
                        slots@,
                        #[trigger] old(self).queues@[q2]@,
                    ),
            decreases NUM_QUEUES - q,
        {
            // Scan queue `q` for the first ready node.
            let queue_len = self.queues[q].len();
            let mut j: usize = 0;
            let mut found: usize = queue_len;
            while j < queue_len
                invariant
                    j <= queue_len,
                    self.wf(),
                    *self == *old(self),
                    q < NUM_QUEUES,
                    queue_len == self.queues@[q as int]@.len(),
                    found <= queue_len,
                    found < queue_len ==> spec_node_ready(
                        slots@,
                        self.queues@[q as int]@[found as int],
                    ) && (forall|k: int|
                        0 <= k < found ==> !spec_node_ready(
                            slots@,
                            #[trigger] self.queues@[q as int]@[k],
                        )),
                    found == queue_len ==> (forall|k: int|
                        0 <= k < j ==> !spec_node_ready(
                            slots@,
                            #[trigger] self.queues@[q as int]@[k],
                        )),
                decreases queue_len - j,
            {
                if found == queue_len {
                    let node_ready = match self.queues[q][j].process {
                        Some(slot_index) => match slots.get(slot_index) {
                            Some(process) => process.ready(),
                            None => false,
                        },
                        None => false,
                    };
                    proof {
                        assert(node_ready == spec_node_ready(
                            slots@,
                            self.queues@[q as int]@[j as int],
                        ));
                    }
                    if node_ready {
                        found = j;
                    }
                }
                j = j + 1;
            }
            if found < queue_len {
                // Rotate nodes to the tail until the ready node heads the
                // queue.
                let ghost pre_queue = self.queues@[q as int]@;
                let mut rotations: usize = 0;
                while rotations < found
                    invariant
                        rotations <= found,
                        self.wf(),
                        q < NUM_QUEUES,
                        found < queue_len,
                        queue_len == pre_queue.len(),
                        forall|q2: int|
                            0 <= q2 < NUM_QUEUES && q2 != q ==> self.queues@[q2]@ == #[trigger] old(
                                self,
                            ).queues@[q2]@,
                        pre_queue == old(self).queues@[q as int]@,
                        self.queues@[q as int]@ =~= pre_queue.subrange(
                            rotations as int,
                            queue_len as int,
                        ) + pre_queue.subrange(0, rotations as int),
                    decreases found - rotations,
                {
                    let queue = &mut self.queues[q];
                    let node = queue.remove(0);
                    queue.push(node);
                    proof {
                        assert(self.queues@[q as int]@ =~= pre_queue.subrange(
                            rotations + 1,
                            queue_len as int,
                        ) + pre_queue.subrange(0, rotations + 1));
                    }
                    rotations = rotations + 1;
                }
                proof {
                    assert(spec_rotated_to_first_ready(
                        slots@,
                        old(self).queues@[q as int]@,
                        self.queues@[q as int]@,
                        found as int,
                    ));
                    assert(self.queues@[q as int]@[0] == pre_queue[found as int]);
                }
                return Some(q);
            }
            proof {
                assert(!spec_queue_has_ready(slots@, old(self).queues@[q as int]@));
            }
            q = q + 1;
        }
        None
    }

    /// The node count of queue `queue_idx`.
    pub fn queue_len(&self, queue_idx: usize) -> (r: usize)
        requires
            self.wf(),
            queue_idx < NUM_QUEUES,
        ensures
            r == self.queues@[queue_idx as int]@.len(),
    {
        self.queues[queue_idx].len()
    }
}

/// Count the nodes of one queue that are bound to a process slot.
fn count_bound_nodes(queue: &Vec<MLFQProcessNode>) -> (r: usize)
    ensures
        r as int == spec_bound_nodes(queue@),
{
    let ghost pred = |n: MLFQProcessNode| n.process is Some;
    let mut count: usize = 0;
    let mut i: usize = 0;
    proof {
        assert(queue@.subrange(0, 0) =~= Seq::<MLFQProcessNode>::empty());
        reveal(Seq::filter);
    }
    while i < queue.len()
        invariant
            i <= queue@.len(),
            count == queue@.subrange(0, i as int).filter(pred).len(),
            count <= i,
            pred == (|n: MLFQProcessNode| n.process is Some),
        decreases queue@.len() - i,
    {
        let bound = match queue[i].process {
            Some(_) => true,
            None => false,
        };
        proof {
            let sub0 = queue@.subrange(0, i as int);
            let sub1 = queue@.subrange(0, i + 1);
            assert(sub1.drop_last() =~= sub0);
            assert(sub1.last() == queue@[i as int]);
            reveal(Seq::filter);
            sub0.lemma_filter_len(pred);
        }
        if bound {
            count = count + 1;
        }
        i = i + 1;
    }
    proof {
        assert(queue@.subrange(0, queue@.len() as int) =~= queue@);
    }
    count
}

impl ProcessMultiQueues {
    /// How many nodes across the queues are bound to a process slot.
    pub open spec fn spec_active_nodes(&self) -> int {
        spec_bound_nodes(self.queues@[0]@) + spec_bound_nodes(self.queues@[1]@)
            + spec_bound_nodes(self.queues@[2]@)
    }
}

impl ProcessContainer for ProcessMultiQueues {
    /// The total node count across the queues, saturating at `usize::MAX`.
    fn len(&self) -> (r: usize)
        ensures
            self.wf() ==> r as int == (if self.spec_total_nodes() <= usize::MAX as int {
                self.spec_total_nodes()
            } else {
                usize::MAX as int
            }),
    {
        let mut total: usize = 0;
        let mut q: usize = 0;
        while q < self.queues.len()
            invariant
                q <= self.queues@.len(),
                self.wf() && q == 1 ==> total == self.queues@[0]@.len(),
                self.wf() && q == 2 ==> total as int == (if self.queues@[0]@.len()
                    + self.queues@[1]@.len() <= usize::MAX as int {
                    self.queues@[0]@.len() + self.queues@[1]@.len() as int
                } else {
                    usize::MAX as int
                }),
                self.wf() && q == 3 ==> total as int == (if self.spec_total_nodes()
                    <= usize::MAX as int {
                    self.spec_total_nodes()
                } else {
                    usize::MAX as int
                }),
                q == 0 ==> total == 0,
            decreases self.queues@.len() - q,
        {
            let qlen = self.queues[q].len();
            total = if total <= usize::MAX - qlen {
                total + qlen
            } else {
                usize::MAX
            };
            q = q + 1;
        }
        total
    }

    /// How many nodes are bound to a loaded process, saturating at
    /// `usize::MAX`.
    fn active(&self) -> (r: usize)
        ensures
            self.wf() ==> r as int == (if self.spec_active_nodes() <= usize::MAX as int {
                self.spec_active_nodes()
            } else {
                usize::MAX as int
            }),
    {
        let mut total: usize = 0;
        let mut q: usize = 0;
        while q < self.queues.len()
            invariant
                q <= self.queues@.len(),
                self.wf() && q == 1 ==> total as int == spec_bound_nodes(self.queues@[0]@),
                self.wf() && q == 2 ==> total as int == (if spec_bound_nodes(self.queues@[0]@)
                    + spec_bound_nodes(self.queues@[1]@) <= usize::MAX as int {
                    spec_bound_nodes(self.queues@[0]@) + spec_bound_nodes(self.queues@[1]@)
                } else {
                    usize::MAX as int
                }),
                self.wf() && q == 3 ==> total as int == (if self.spec_active_nodes()
                    <= usize::MAX as int {
                    self.spec_active_nodes()
                } else {
                    usize::MAX as int
                }),
                q == 0 ==> total == 0,
            decreases self.queues@.len() - q,
        {
            let bound = count_bound_nodes(&self.queues[q]);
            total = if total <= usize::MAX - bound {
                total + bound
            } else {
                usize::MAX
            };
            q = q + 1;
        }
        total
    }
}

/// Multilevel feedback queue scheduler.
pub struct MLFQSched {
    /// The scheduler's three priority queues.
    pub processes: ProcessMultiQueues,
    /// When (in alarm ticks) all processes are next restored to the top
    /// queue.
    pub next_reset: u32,
}

impl MLFQSched {
    /// A scheduler over the given queues, with the first refresh not yet
    /// scheduled.
    pub fn new(processes: ProcessMultiQueues) -> (r: MLFQSched)
        requires
            processes.wf(),
        ensures
            r.processes == processes,
            r.processes.wf(),
    {
        MLFQSched { processes, next_reset: 0 }
    }

    /// The timeslice granted at each priority level: lower queues run less
    /// often but longer.
    pub fn get_timeslice_us(&self, queue_idx: usize) -> (r: u32)
        requires
            queue_idx < NUM_QUEUES,
        ensures
            queue_idx == 0 ==> r == 10000,
            queue_idx == 1 ==> r == 20000,
            queue_idx == 2 ==> r == 50000,
    {
        match queue_idx {
            0 => 10000,
            1 => 20000,
            _ => 50000,
        }
    }

    /// Restore every process to the top queue, resetting the time used:
    /// the periodic promotion that keeps low-priority processes from
    /// starving. Afterwards the lower queues are empty and the top queue
    /// holds its former nodes followed by the former nodes of the lower
    /// queues in order, each with its counter reset — so every demoted
    /// process is back in the top queue at its next scheduling opportunity.
    pub fn redeem_all_procs(&mut self)
        requires
            old(self).processes.wf(),
        ensures
            final(self).processes.wf(),
            final(self).processes.queues@[1]@.len() == 0,
            final(self).processes.queues@[2]@.len() == 0,
            final(self).processes.queues@[0]@ == old(self).processes.queues@[0]@ + spec_promoted(
                old(self).processes.queues@[1]@,
            ) + spec_promoted(old(self).processes.queues@[2]@),
            final(self).processes.spec_total_nodes() == old(self).processes.spec_total_nodes(),
            final(self).next_reset == old(self).next_reset,
    {
        let ghost q0_start = self.processes.queues@[0]@;
        let ghost q1_start = self.processes.queues@[1]@;
        let ghost q2_start = self.processes.queues@[2]@;
        let mut q: usize = 1;
        while q < NUM_QUEUES
            invariant
                1 <= q <= NUM_QUEUES,
                self.processes.wf(),
                self.next_reset == old(self).next_reset,
                q0_start == old(self).processes.queues@[0]@,
                q1_start == old(self).processes.queues@[1]@,
                q2_start == old(self).processes.queues@[2]@,
                forall|k: int| 1 <= k < q ==> self.processes.queues@[k]@.len() == 0,
                forall|k: int|
                    q <= k < NUM_QUEUES ==> self.processes.queues@[k]@ == #[trigger] old(
                        self,
                    ).processes.queues@[k]@,
                q == 1 ==> self.processes.queues@[0]@ == q0_start,
                q == 2 ==> self.processes.queues@[0]@ == q0_start + spec_promoted(q1_start),
                q == 3 ==> self.processes.queues@[0]@ == q0_start + spec_promoted(q1_start)
                    + spec_promoted(q2_start),
            decreases NUM_QUEUES - q,
        {
            let ghost q0_base = self.processes.queues@[0]@;
            let ghost drained = self.processes.queues@[q as int]@;
            let ghost mut moved: int = 0;
            loop
                invariant
                    1 <= q < NUM_QUEUES,
                    self.processes.wf(),
                    self.next_reset == old(self).next_reset,
                    0 <= moved <= drained.len(),
                    self.processes.queues@[q as int]@ =~= drained.subrange(
                        moved,
                        drained.len() as int,
                    ),
                    self.processes.queues@[0]@ =~= q0_base + spec_promoted(
                        drained.subrange(0, moved),
                    ),
                    forall|k: int|
                        0 < k < NUM_QUEUES && k != q ==> self.processes.queues@[k]@ == #[trigger] old(
                            self,
                        ).processes.queues@[k]@ || self.processes.queues@[k]@.len() == 0,
                    forall|k: int| 1 <= k < q ==> self.processes.queues@[k]@.len() == 0,
                    forall|k: int|
                        q < k < NUM_QUEUES ==> self.processes.queues@[k]@ == #[trigger] old(
                            self,
                        ).processes.queues@[k]@,
                ensures
                    self.processes.wf(),
                    self.next_reset == old(self).next_reset,
                    self.processes.queues@[q as int]@.len() == 0,
                    self.processes.queues@[0]@ =~= q0_base + spec_promoted(drained),
                    forall|k: int| 1 <= k < q ==> self.processes.queues@[k]@.len() == 0,
                    forall|k: int|
                        q < k < NUM_QUEUES ==> self.processes.queues@[k]@ == #[trigger] old(
                            self,
                        ).processes.queues@[k]@,
                decreases self.processes.queues@[q as int]@.len(),
            {
                let qlen = self.processes.queues[q].len();
                if qlen == 0 {
                    proof {
                        assert(drained.subrange(moved, drained.len() as int).len() == 0);
                        assert(drained.subrange(0, moved) =~= drained);
                    }
                    break;
                }
                proof {
                    assert(drained.subrange(moved, drained.len() as int).len() > 0);
                    assert(moved < drained.len());
                }
                let queue = &mut self.processes.queues[q];
                let mut node = queue.remove(0);
                node.us_used_this_queue = 0;
                self.processes.queues[0].push(node);
                proof {
                    assert(drained.subrange(moved, drained.len() as int).drop_first()
                        =~= drained.subrange(moved + 1, drained.len() as int));
                    assert(node == (MLFQProcessNode {
                        process: drained[moved].process,
                        us_used_this_queue: 0,
                    }));
                    assert(spec_promoted(drained.subrange(0, moved + 1)) =~= spec_promoted(
                        drained.subrange(0, moved),
                    ).push(node));
                    moved = moved + 1;
                }
            }
            q = q + 1;
        }
    }

    /// Service one process for one quantum of `timeslice` microseconds,
    /// carrying the process's used-time counter for its current queue.
    ///
    /// Like the round-robin scheduler's servicing pass, except that the
    /// queue's accumulated-use counter also ends the quantum — a process
    /// cannot dodge demotion by yielding just before expiry — and an
    /// interruption does not: bottom halves wait until the process yields
    /// with nothing queued or its time runs out.
    ///
    /// Returns the reason the quantum ended and the updated used-time
    /// counter.
    pub fn do_process<P: Platform, C: Chip, M: Mpu, S: SysTick, I: Ipc>(
        &self,
        kernel: &mut Kernel,
        process: &mut Process,
        platform: &mut P,
        chip: &mut C,
        mpu: &mut M,
        systick: &mut S,
        ipc: &mut I,
        timeslice: u32,
        us_used_this_queue: u32,
    ) -> (r: (Option<ContextSwitchReason>, u32))
        requires
            old(process).wf(),
        ensures
            final(process).wf(),
            final(kernel).spec_grant_count() == old(kernel).spec_grant_count(),
            us_used_this_queue > PRIORITY_REFRESH_PERIOD_MS * 1000 ==> {
                &&& r == (
                    Some(ContextSwitchReason::TimesliceExpired),
                    us_used_this_queue,
                )
                &&& *final(process) == (Process { debug: final(process).debug, ..*old(process) })
                &&& final(process).debug == (crate::process::ProcessDebug {
                    timeslice_expiration_count: crate::process::spec_usize_inc(
                        old(process).debug.timeslice_expiration_count,
                    ),
                    ..old(process).debug
                })
                &&& *final(kernel) == *old(kernel)
            },
    {
        // A process that has already used up its allotment at this level is
        // out of time before the quantum even starts: no timer is armed and
        // no switch happens.
        if us_used_this_queue > PRIORITY_REFRESH_PERIOD_MS * 1000 {
            process.debug_timeslice_expired();
            systick.reset();
            return (Some(ContextSwitchReason::TimesliceExpired), us_used_this_queue);
        }
        systick.reset();
        systick.start_timer(timeslice);
        systick.config_interrupts(false);
        let mut switch_reason_opt: Option<ContextSwitchReason> = None;
        let mut us_used = us_used_this_queue;
        let mut budget: usize = QUANTUM_DECISION_BUDGET;

        loop
            invariant
                process.wf(),
                kernel.spec_grant_count() == old(kernel).spec_grant_count(),
            ensures
                process.wf(),
                kernel.spec_grant_count() == old(kernel).spec_grant_count(),
            decreases budget,
        {
            let over_allotment = us_used > PRIORITY_REFRESH_PERIOD_MS * 1000;
            if budget == 0 || over_allotment || systick.overflowed() || !systick.greater_than(
                MIN_QUANTA_THRESHOLD_US,
            ) {
                switch_reason_opt = Some(ContextSwitchReason::TimesliceExpired);
                process.debug_timeslice_expired();
                break;
            }
            budget = budget - 1;

            let state = process.get_state();
            match state {
                State::Running => {
                    process.setup_mpu(mpu);
                    mpu.enable_mpu();
                    systick.config_interrupts(true);
                    let context_switch_reason = process.switch_to(chip);
                    let remaining = systick.get_value();
                    systick.config_interrupts(false);
                    mpu.disable_mpu();
                    if remaining < timeslice {
                        let spent = timeslice - remaining;
                        us_used = if us_used <= u32::MAX - spent {
                            us_used + spent
                        } else {
                            u32::MAX
                        };
                    }
                    switch_reason_opt = context_switch_reason;

                    let appid = process.appid();
                    kernel.process_return(
                        appid,
                        context_switch_reason,
                        process,
                        platform,
                        chip,
                        mpu,
                    );
                    match context_switch_reason {
                        Some(ContextSwitchReason::SyscallFired { syscall: Syscall::YIELD }) => {
                            // Queued upcalls may already be waiting.
                        },
                        Some(ContextSwitchReason::TimesliceExpired) => {
                            break;
                        },
                        Some(ContextSwitchReason::Interrupted) => {
                            // Bottom halves are deferred: keep servicing.
                        },
                        _ => {},
                    }
                },
                State::Yielded | State::Unstarted => {
                    match process.dequeue_task(kernel) {
                        None => {
                            break;
                        },
                        Some(cb) => {
                            kernel.handle_callback(process, chip, mpu, ipc, cb);
                        },
                    }
                },
                _ => {
                    break;
                },
            }
        }
        systick.reset();
        (switch_reason_opt, us_used)
    }

}

impl Scheduler for MLFQSched {
    /// The scheduler always keeps exactly its fixed number of queues.
    open spec fn sched_wf(&self) -> bool {
        self.processes.wf()
    }

    /// Each decision first promotes every process back to the top queue if
    /// the refresh period has elapsed, then services the head of the
    /// highest-priority queue with a ready process for that queue's
    /// timeslice. A process that used up its allotment is demoted one queue
    /// with its counter reset; otherwise it goes to the back of its own
    /// queue.
    fn kernel_loop<P: Platform, C: Chip, M: Mpu, S: SysTick, A: Alarm, I: Ipc>(
        &mut self,
        kernel: &mut Kernel,
        slots: &mut ProcessSlots,
        platform: &mut P,
        chip: &mut C,
        mpu: &mut M,
        systick: &mut S,
        alarm: &mut A,
        ipc: &mut I,
        iterations: usize,
    )
        ensures
            final(self).processes.spec_total_nodes() == old(self).processes.spec_total_nodes(),
    {
        let hertz = alarm.frequency() as u64;
        proof {
            assert((PRIORITY_REFRESH_PERIOD_MS as int) * (hertz as int)
                < 0x1_0000_0000_0000_0000) by (nonlinear_arith)
                requires
                    hertz < 0x1_0000_0000,
            ;
        }
        let delta = #[verifier::truncate] (((PRIORITY_REFRESH_PERIOD_MS as u64) * hertz / 1000)
            as u32);
        let now = alarm.now();
        self.next_reset = (((now as u64) + (delta as u64)) % 0x1_0000_0000) as u32;

        chip.service_pending_interrupts();

        let mut n = iterations;
        while n > 0
            invariant
                slots.wf(),
                slots@.len() == old(slots)@.len(),
                self.processes.wf(),
                self.processes.spec_total_nodes() == old(self).processes.spec_total_nodes(),
            decreases n,
        {
            n = n - 1;
            if chip.has_pending_interrupts() || kernel.processes_blocked()
                || kernel.has_halted() {
                return;
            }

            // Periodically promote all processes back to the top queue.
            let now = alarm.now();
            if now >= self.next_reset {
                self.next_reset = (((now as u64) + (delta as u64)) % 0x1_0000_0000) as u32;
                self.redeem_all_procs();
            }

            let queue_idx = match self.processes.get_next_ready_process_node(slots) {
                Some(q) => q,
                None => {
                    // Outstanding work without a ready process: nothing to
                    // schedule until an interrupt delivers more.
                    return;
                },
            };
            let timeslice = self.get_timeslice_us(queue_idx);
            let slot_index = match self.processes.get_node_process(queue_idx, 0) {
                Some(i) => i,
                None => {
                    return;
                },
            };
            let us_before = self.processes.queues[queue_idx][0].us_used_this_queue;

            let mut punish = false;
            let mut us_after = us_before;
            match slots.take(slot_index) {
                Some(mut process) => {
                    let (switch_reason, us) = self.do_process(
                        kernel,
                        &mut process,
                        platform,
                        chip,
                        mpu,
                        systick,
                        ipc,
                        timeslice,
                        us_before,
                    );
                    if slot_index < slots.len() {
                        slots.put(slot_index, Some(process));
                    }
                    us_after = us;
                    punish = match switch_reason {
                        Some(ContextSwitchReason::TimesliceExpired) => true,
                        _ => false,
                    };
                },
                None => (),
            }

            self.reenqueue_head(queue_idx, punish, us_after);
        }
    }
}

impl MLFQSched {
    /// Re-enqueue the head node of queue `queue_idx` after servicing it.
    ///
    /// A process that exhausted its timeslice (`punish`) is demoted: its
    /// node moves to the tail of the next lower queue (staying in the
    /// lowest), with its used-time counter reset — so a process that runs
    /// out its time in the top queue is found in the second queue at its
    /// next scheduling opportunity. Otherwise the node goes to the tail of
    /// its own queue carrying the updated counter.
    pub fn reenqueue_head(&mut self, queue_idx: usize, punish: bool, us_after: u32)
        requires
            old(self).processes.wf(),
            queue_idx < NUM_QUEUES,
        ensures
            final(self).processes.wf(),
            final(self).processes.spec_total_nodes() == old(self).processes.spec_total_nodes(),
            final(self).next_reset == old(self).next_reset,
            old(self).processes.queues@[queue_idx as int]@.len() > 0 && punish ==> {
                let node = old(self).processes.queues@[queue_idx as int]@[0];
                let target = if queue_idx == NUM_QUEUES - 1 {
                    queue_idx as int
                } else {
                    queue_idx + 1
                };
                let demoted = MLFQProcessNode { process: node.process, us_used_this_queue: 0 };
                if target == queue_idx {
                    final(self).processes.queues@[queue_idx as int]@ == old(self).processes.queues@[queue_idx as int]@.drop_first().push(demoted)
                } else {
                    final(self).processes.queues@[queue_idx as int]@ == old(self).processes.queues@[queue_idx as int]@.drop_first() && final(self).processes.queues@[target]@ == old(self).processes.queues@[target]@.push(
                        demoted,
                    )
                }
            },
            old(self).processes.queues@[queue_idx as int]@.len() > 0 && !punish ==> {
                let node = old(self).processes.queues@[queue_idx as int]@[0];
                let kept = MLFQProcessNode { process: node.process, us_used_this_queue: us_after };
                final(self).processes.queues@[queue_idx as int]@ == old(self).processes.queues@[queue_idx as int]@.drop_first().push(kept)
            },
            old(self).processes.queues@[queue_idx as int]@.len() == 0 ==> *final(self) == *old(self),
    {
        let queue_len = self.processes.queues[queue_idx].len();
        if queue_len > 0 {
            let queue = &mut self.processes.queues[queue_idx];
            let mut node = queue.remove(0);
            if punish {
                node.us_used_this_queue = 0;
                let next_queue = if queue_idx == NUM_QUEUES - 1 {
                    queue_idx
                } else {
                    queue_idx + 1
                };
                self.processes.queues[next_queue].push(node);
            } else {
                node.us_used_this_queue = us_after;
                self.processes.queues[queue_idx].push(node);
            }
        }
    }
}

} // verus!
