//! Priority-ceiling lock over a shared peripheral handle.
//!
//! Each shared resource carries a ceiling: the highest base priority among
//! all tasks that may ever request it.  While a task holds the resource its
//! effective scheduling priority is raised to that ceiling, so no task that
//! could also need the resource can preempt the holder and deadlock-wait;
//! only work strictly above the ceiling (a hardware event none of the
//! resource's users outranks) may still preempt.  Because every requester's
//! priority is at most the ceiling, a task that gets to run never finds the
//! resource held: acquisition never blocks.

use vstd::prelude::*;

verus! {

/// A shared peripheral handle with single logical ownership and a statically
/// computed priority ceiling.
#[derive(Clone, Copy, PartialEq, Eq, Structural, Debug)]
pub struct CeilingLock {
    /// Highest base priority among the tasks that may request this resource.
    pub ceiling: u8,
    /// The task currently holding the resource, if any.
    pub holder: Option<usize>,
}

/// The priority at which a task is scheduled: its base priority, raised to
/// the resource ceiling while it holds the resource.
pub open spec fn effective_priority(base: u8, holds_lock: bool, ceiling: u8) -> u8 {
    if holds_lock && ceiling > base {
        ceiling
    } else {
        base
    }
}

/// Preemption rule: incoming work preempts exactly when its priority is
/// strictly above the running task's effective priority.
pub open spec fn can_preempt(incoming: u8, running_effective: u8) -> bool {
    incoming > running_effective
}

/// The executable preemption decision, for the platform's dispatch hook.
pub fn preemption_allowed(incoming: u8, running_effective: u8) -> (r: bool)
    ensures
        r == can_preempt(incoming, running_effective),
{
    incoming > running_effective
}

impl CeilingLock {
    pub fn new(ceiling: u8) -> (lk: CeilingLock)
        ensures
            lk.ceiling == ceiling,
            lk.holder is None,
    {
        CeilingLock { ceiling, holder: None }
    }

    /// The effective priority of task `tid` with base priority `base` under
    /// this lock.
    pub fn holder_priority(&self, tid: usize, base: u8) -> (p: u8)
        ensures
            p == effective_priority(base, self.holder == Some(tid), self.ceiling),
    {
        match self.holder {
            Some(h) if h == tid && self.ceiling > base => self.ceiling,
            _ => base,
        }
    }

    /// Take the resource.  Under the ceiling protocol a running task always
    /// finds it free, and only tasks whose base priority is at most the
    /// ceiling ever request it.
    pub fn acquire(&mut self, tid: usize, base: u8)
        requires
            old(self).holder is None,
            base <= old(self).ceiling,
        ensures
            final(self).ceiling == old(self).ceiling,
            final(self).holder == Some(tid),
    {
        self.holder = Some(tid);
    }

    /// Release the resource at the end of the guarded section.
    pub fn release(&mut self, tid: usize)
        requires
            old(self).holder == Some(tid),
        ensures
            final(self).ceiling == old(self).ceiling,
            final(self).holder is None,
    {
        self.holder = None;
    }
}

/// No priority inversion: while a task whose base priority is at most the
/// ceiling holds the lock, no task with priority at or below the ceiling can
/// preempt it; a task strictly above the ceiling still preempts immediately.
pub proof fn lemma_no_priority_inversion(
    lk: CeilingLock,
    holder_tid: usize,
    holder_base: u8,
    other: u8,
)
    requires
        lk.holder == Some(holder_tid),
        holder_base <= lk.ceiling,
    ensures
        other <= lk.ceiling ==> !can_preempt(
            other,
            effective_priority(holder_base, true, lk.ceiling),
        ),
        other > lk.ceiling ==> can_preempt(
            other,
            effective_priority(holder_base, true, lk.ceiling),
        ),
{
}

} // verus!
