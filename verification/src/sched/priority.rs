//! Strict-priority scheduler.
//!
//! Process priority is the process's position in the slot array: every
//! scheduling decision scans from slot zero and runs the first ready
//! process. A high-priority process that stays ready starves everything
//! behind it — deliberately, as this scheduler's legacy behavior.

use vstd::prelude::*;

use crate::process::{Process, ProcessSlots, ProcessType};
use crate::task::AppId;

verus! {

/// How long a process may run before being preempted, in microseconds.
pub const DEFAULT_TIMESLICE_US: u32 = 10000;

/// Skip rescheduling a process whose quanta is nearly exhausted.
pub const MIN_QUANTA_THRESHOLD_US: u32 = 500;

/// A node naming one process in the scheduler's bookkeeping.
pub struct RoundRobinProcessNode {
    /// The process the node stands for.
    pub appid: AppId,
}

impl RoundRobinProcessNode {
    /// A node for the given process.
    pub fn new(appid: AppId) -> (r: RoundRobinProcessNode)
        ensures
            r.appid == appid,
    {
        RoundRobinProcessNode { appid }
    }
}

/// Whether the slot holds a ready process.
pub open spec fn spec_slot_ready(slots: Seq<Option<Process>>, i: int) -> bool {
    slots[i] matches Some(p) && (p.tasks@.len() > 0 || p.state is Running)
}

/// Strict-priority scheduler over the slot array, where lower slot indices
/// have absolute priority.
pub struct RoundRobinSched {
    /// The slot whose process ran most recently.
    pub running: usize,
}

impl RoundRobinSched {
    /// A scheduler that has run nothing yet.
    pub fn new() -> (r: RoundRobinSched)
        ensures
            r.running == 0,
    {
        RoundRobinSched { running: 0 }
    }

    /// Pick the process to run: the first ready process scanning from slot
    /// zero, every decision anew — the head of the array wins, and
    /// starvation of later slots is accepted by design.
    pub fn dispatcher(&self, slots: &ProcessSlots) -> (r: Option<usize>)
        ensures
            r matches Some(i) ==> i < slots@.len() && spec_slot_ready(slots@, i as int)
                && forall|j: int| 0 <= j < i ==> !spec_slot_ready(slots@, j),
            r is None ==> forall|j: int| 0 <= j < slots@.len() ==> !spec_slot_ready(slots@, j),
    {
        let count = slots.len();
        let mut i: usize = 0;
        while i < count
            invariant
                i <= count,
                count == slots@.len(),
                forall|j: int| 0 <= j < i ==> !spec_slot_ready(slots@, j),
            decreases count - i,
        {
            let ready = match slots.get(i) {
                Some(process) => process.ready(),
                None => false,
            };
            if ready {
                return Some(i);
            }
            i = i + 1;
        }
        None
    }

    /// Note which slot ran and move the cursor to the next slot, wrapping
    /// at the end of the array.
    pub fn finalizer(&mut self, slot_count: usize)
        ensures
            slot_count == 0 ==> final(self).running == 0,
            slot_count > 0 && old(self).running < slot_count ==> final(self).running == (old(self).running + 1) % (slot_count as int),
            old(self).running >= slot_count ==> final(self).running == 0,
    {
        if slot_count == 0 {
            self.running = 0;
            return;
        }
        let last = if self.running >= slot_count {
            slot_count - 1
        } else {
            self.running
        };
        let next = if last == slot_count - 1 {
            0
        } else {
            last + 1
        };
        proof {
            if old(self).running < slot_count {
                if old(self).running + 1 == slot_count {
                    vstd::arithmetic::div_mod::lemma_mod_self_0(slot_count as int);
                } else {
                    vstd::arithmetic::div_mod::lemma_small_mod(
                        (old(self).running + 1) as nat,
                        slot_count as nat,
                    );
                }
            }
        }
        self.running = next;
    }
}

} // verus!
