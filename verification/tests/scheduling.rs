use rangewatch::executor::{Executor, Task, TaskKind, TaskState};
use rangewatch::lock::{preemption_allowed, CeilingLock};
use rangewatch::watchdog::WatchdogDeadline;

fn timer_task(priority: u8) -> Task {
    Task { kind: TaskKind::TimerScheduled, priority, state: TaskState::Idle, next_due: 0 }
}

fn interrupt_task(priority: u8) -> Task {
    Task { kind: TaskKind::InterruptBound, priority, state: TaskState::Idle, next_due: 0 }
}

#[test]
fn schedule_is_dropped_while_slot_occupied() {
    let mut ex = Executor::new(vec![timer_task(1)]);
    assert!(ex.schedule_after(0, 100, 50));
    assert_eq!(ex.tasks[0].state, TaskState::Queued);
    assert_eq!(ex.tasks[0].next_due, 150);
    // The slot is occupied: the second request is dropped, nothing changes.
    assert!(!ex.schedule_after(0, 120, 10));
    assert_eq!(ex.tasks[0].next_due, 150);
}

#[test]
fn next_ready_waits_for_due_time() {
    let mut ex = Executor::new(vec![timer_task(1)]);
    ex.schedule_after(0, 0, 500);
    assert_eq!(ex.next_ready(499), None);
    assert_eq!(ex.next_ready(500), Some(0));
}

#[test]
fn next_ready_picks_highest_priority() {
    let mut ex = Executor::new(vec![timer_task(1), timer_task(3), timer_task(2)]);
    ex.schedule_after(0, 0, 10);
    ex.schedule_after(1, 0, 10);
    ex.schedule_after(2, 0, 10);
    assert_eq!(ex.next_ready(10), Some(1));
}

#[test]
fn next_ready_breaks_priority_tie_by_due_time_then_index() {
    let mut ex = Executor::new(vec![timer_task(2), timer_task(2), timer_task(2)]);
    ex.schedule_after(0, 0, 30);
    ex.schedule_after(1, 0, 20);
    ex.schedule_after(2, 0, 20);
    // Earlier due time wins; equal due times fall back to the lower index.
    assert_eq!(ex.next_ready(30), Some(1));
}

#[test]
fn interrupt_activation_is_immediate() {
    let mut ex = Executor::new(vec![timer_task(2), interrupt_task(2)]);
    ex.schedule_after(0, 0, 5);
    assert!(ex.activate(1));
    // Same priority: the interrupt's zero due key beats the timer task.
    assert_eq!(ex.next_ready(5), Some(1));
    // A second activation while queued is absorbed.
    assert!(!ex.activate(1));
}

#[test]
fn dispatch_cycle_frees_the_slot() {
    let mut ex = Executor::new(vec![timer_task(1)]);
    ex.schedule_after(0, 0, 10);
    ex.begin_run(0);
    assert_eq!(ex.tasks[0].state, TaskState::Running);
    assert_eq!(ex.next_ready(10), None);
    ex.finish_run(0);
    assert_eq!(ex.tasks[0].state, TaskState::Idle);
    assert!(ex.schedule_after(0, 10, 10));
}

#[test]
fn ceiling_elevation_blocks_up_to_ceiling() {
    let mut lk = CeilingLock::new(3);
    lk.acquire(7, 1);
    // While held, the holder is scheduled at the ceiling.
    assert_eq!(lk.holder_priority(7, 1), 3);
    // Anything at or below the ceiling cannot preempt the holder.
    assert!(!preemption_allowed(2, lk.holder_priority(7, 1)));
    assert!(!preemption_allowed(3, lk.holder_priority(7, 1)));
    // A task strictly above the ceiling still preempts immediately.
    assert!(preemption_allowed(4, lk.holder_priority(7, 1)));
    lk.release(7);
    // Released: the task is back at its base priority and preemptable.
    assert_eq!(lk.holder_priority(7, 1), 1);
    assert!(preemption_allowed(2, lk.holder_priority(7, 1)));
}

#[test]
fn lock_holder_is_tracked() {
    let mut lk = CeilingLock::new(2);
    assert_eq!(lk.holder, None);
    lk.acquire(0, 2);
    assert_eq!(lk.holder, Some(0));
    // Another task keeps its own base priority.
    assert_eq!(lk.holder_priority(1, 2), 2);
    lk.release(0);
    assert_eq!(lk.holder, None);
}

#[test]
fn watchdog_start_feeds_immediately() {
    let w = WatchdogDeadline::start(1_000_000, 400);
    assert_eq!(w.timeout, 1_000_000);
    assert_eq!(w.last_fed_at, 400);
}

#[test]
fn watchdog_feed_restarts_the_window() {
    let mut w = WatchdogDeadline::start(1_000_000, 0);
    w.feed(200_000);
    assert_eq!(w.last_fed_at, 200_000);
    assert_eq!(w.timeout, 1_000_000);
    w.feed(400_000);
    assert_eq!(w.last_fed_at, 400_000);
}
