//! The task executor: a fixed set of tasks dispatched by priority.
//!
//! The task set is created once at system initialization and never grows.
//! Interrupt-bound tasks are activated by a hardware signal and are eligible
//! to run as soon as they are queued; timer-scheduled tasks become eligible
//! when the clock reaches their due time.  Dispatch picks the eligible task
//! of highest priority, breaking ties by earlier due time and then by lower
//! task index.  A re-schedule request for a task whose slot is already
//! occupied is dropped rather than failing the caller: a missed cycle of a
//! low-priority task is tolerable, and the hardware watchdog is the backstop
//! against total scheduler starvation.

use vstd::prelude::*;

verus! {

/// How a task is activated.
#[derive(Clone, Copy, PartialEq, Eq, Structural, Debug)]
pub enum TaskKind {
    /// Activated by a hardware signal; eligible immediately once queued.
    InterruptBound,
    /// Re-enters the queue with an absolute due time computed from the clock.
    TimerScheduled,
}

/// Where a task stands in its lifecycle.
#[derive(Clone, Copy, PartialEq, Eq, Structural, Debug)]
pub enum TaskState {
    Idle,
    Queued,
    Running,
}

/// A unit of schedulable work with a fixed priority (higher = more urgent).
#[derive(Clone, Copy, PartialEq, Eq, Structural, Debug)]
pub struct Task {
    pub kind: TaskKind,
    pub priority: u8,
    pub state: TaskState,
    /// Absolute wake time in microseconds; meaningful while a
    /// timer-scheduled task is queued.
    pub next_due: u64,
}

/// Dispatch urgency among equal priorities: an interrupt activation is
/// immediate, a timer task waits for its due time.
pub open spec fn due_key(t: Task) -> int {
    if t.kind is InterruptBound {
        0
    } else {
        t.next_due as int
    }
}

/// Strict dispatch order between two distinct queue entries: higher priority
/// first, then earlier due time, then lower task index.
pub open spec fn beats(a: Task, ia: int, b: Task, ib: int) -> bool {
    ||| a.priority > b.priority
    ||| (a.priority == b.priority && due_key(a) < due_key(b))
    ||| (a.priority == b.priority && due_key(a) == due_key(b) && ia < ib)
}

/// The executor's fixed task table; a task's id is its index.
pub struct Executor {
    pub tasks: Vec<Task>,
}

impl Executor {
    /// Task `i` can be dispatched at instant `now`: it is queued, and either
    /// interrupt-bound or past its due time.
    pub open spec fn eligible(self, i: int, now: u64) -> bool {
        &&& 0 <= i < self.tasks.len()
        &&& self.tasks[i].state is Queued
        &&& (self.tasks[i].kind is InterruptBound || self.tasks[i].next_due <= now)
    }

    /// Build the fixed task table.
    pub fn new(tasks: Vec<Task>) -> (ex: Executor)
        ensures
            ex.tasks == tasks,
    {
        Executor { tasks }
    }

    /// Request that timer task `tid` wake `delay` microseconds from `now`.
    /// Non-blocking and fail-soft: if the task's slot is already occupied the
    /// request is dropped and the executor is unchanged; the request is
    /// accepted exactly when the task was idle.
    pub fn schedule_after(&mut self, tid: usize, now: u64, delay: u64) -> (accepted: bool)
        requires
            tid < old(self).tasks.len(),
            old(self).tasks[tid as int].kind is TimerScheduled,
            now + delay <= u64::MAX,
        ensures
            accepted == (old(self).tasks[tid as int].state is Idle),
            accepted ==> final(self).tasks@ == old(self).tasks@.update(
                tid as int,
                (Task {
                    state: TaskState::Queued,
                    next_due: (now + delay) as u64,
                    ..old(self).tasks[tid as int]
                }),
            ),
            !accepted ==> final(self).tasks@ == old(self).tasks@,
    {
        let t = self.tasks[tid];
        match t.state {
            TaskState::Idle => {
                self.tasks[tid] = Task { state: TaskState::Queued, next_due: now + delay, ..t };
                true
            },
            _ => false,
        }
    }

    /// Activate interrupt task `tid` because its hardware signal fired.  An
    /// activation while the task is already queued or running changes
    /// nothing: the pending work already covers the signal.
    pub fn activate(&mut self, tid: usize) -> (activated: bool)
        requires
            tid < old(self).tasks.len(),
            old(self).tasks[tid as int].kind is InterruptBound,
        ensures
            activated == (old(self).tasks[tid as int].state is Idle),
            activated ==> final(self).tasks@ == old(self).tasks@.update(
                tid as int,
                (Task { state: TaskState::Queued, ..old(self).tasks[tid as int] }),
            ),
            !activated ==> final(self).tasks@ == old(self).tasks@,
    {
        let t = self.tasks[tid];
        match t.state {
            TaskState::Idle => {
                self.tasks[tid] = Task { state: TaskState::Queued, ..t };
                true
            },
            _ => false,
        }
    }

    /// Dispatch task `tid`: it leaves the queue and starts running.
    pub fn begin_run(&mut self, tid: usize)
        requires
            tid < old(self).tasks.len(),
            old(self).tasks[tid as int].state is Queued,
        ensures
            final(self).tasks@ == old(self).tasks@.update(
                tid as int,
                (Task { state: TaskState::Running, ..old(self).tasks[tid as int] }),
            ),
    {
        let t = self.tasks[tid];
        self.tasks[tid] = Task { state: TaskState::Running, ..t };
    }

    /// Task `tid` ran to completion; its slot is free again.
    pub fn finish_run(&mut self, tid: usize)
        requires
            tid < old(self).tasks.len(),
            old(self).tasks[tid as int].state is Running,
        ensures
            final(self).tasks@ == old(self).tasks@.update(
                tid as int,
                (Task { state: TaskState::Idle, ..old(self).tasks[tid as int] }),
            ),
    {
        let t = self.tasks[tid];
        self.tasks[tid] = Task { state: TaskState::Idle, ..t };
    }

    /// Whether task `i` can be dispatched at `now`.
    pub fn is_eligible(&self, i: usize, now: u64) -> (r: bool)
        requires
            i < self.tasks.len(),
        ensures
            r == self.eligible(i as int, now),
    {
        let t = self.tasks[i];
        match t.state {
            TaskState::Queued => match t.kind {
                TaskKind::InterruptBound => true,
                TaskKind::TimerScheduled => t.next_due <= now,
            },
            _ => false,
        }
    }

    /// Pick the task to dispatch at `now`: the eligible task that beats every
    /// other eligible task in priority order, or nothing when the queue holds
    /// no eligible work.
    pub fn next_ready(&self, now: u64) -> (r: Option<usize>)
        ensures
            r is None ==> forall|j: int| 0 <= j < self.tasks.len() ==> !self.eligible(j, now),
            r matches Some(i) ==> {
                &&& i < self.tasks.len()
                &&& self.eligible(i as int, now)
                &&& forall|j: int|
                    0 <= j < self.tasks.len() && j != i && self.eligible(j, now) ==> beats(
                        self.tasks[i as int],
                        i as int,
                        self.tasks[j],
                        j,
                    )
            },
    {
        let mut best: Option<usize> = None;
        let mut idx: usize = 0;
        while idx < self.tasks.len()
            invariant
                idx <= self.tasks.len(),
                best is None ==> forall|j: int| 0 <= j < idx ==> !self.eligible(j, now),
                best matches Some(b) ==> {
                    &&& b < idx
                    &&& self.eligible(b as int, now)
                    &&& forall|j: int|
                        0 <= j < idx && j != b && self.eligible(j, now) ==> beats(
                            self.tasks[b as int],
                            b as int,
                            self.tasks[j],
                            j,
                        )
                },
            decreases self.tasks.len() - idx,
        {
            if self.is_eligible(idx, now) {
                match best {
                    None => {
                        best = Some(idx);
                    },
                    Some(b) => {
                        let challenger = self.tasks[idx];
                        let incumbent = self.tasks[b];
                        if dispatch_order(&challenger, idx, &incumbent, b) {
                            best = Some(idx);
                        }
                    },
                }
            }
            idx += 1;
        }
        best
    }
}

/// Executable form of the dispatch order between two distinct queue entries.
pub fn dispatch_order(a: &Task, ia: usize, b: &Task, ib: usize) -> (r: bool)
    ensures
        r == beats(*a, ia as int, *b, ib as int),
{
    if a.priority != b.priority {
        a.priority > b.priority
    } else {
        let ka: u64 = match a.kind {
            TaskKind::InterruptBound => 0,
            TaskKind::TimerScheduled => a.next_due,
        };
        let kb: u64 = match b.kind {
            TaskKind::InterruptBound => 0,
            TaskKind::TimerScheduled => b.next_due,
        };
        if ka != kb {
            ka < kb
        } else {
            ia < ib
        }
    }
}

} // verus!
