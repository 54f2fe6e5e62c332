//! The wired supervision loop: the fixed task set, the watchdog supervisor,
//! the bus lock and the ranging sensor, driven by one microsecond clock.
//!
//! The platform delivers three kinds of stimulus, each modelled as a plain
//! argument: the clock reaching an instant (`advance` then `tick`), the
//! sensor's data-ready line being asserted (`latch_signal` then
//! `handle_edge_signal`), and the outcome of each bus transaction.  Every
//! public operation preserves the system invariant `inv`, and
//! `lemma_watchdog_liveness` derives from that invariant that the hardware
//! watchdog deadline can never lapse in a reachable state.

use vstd::prelude::*;

use crate::executor::{Executor, Task, TaskKind, TaskState};
use crate::lock::CeilingLock;
use crate::sensor::{
    usable_distance_spec, BringUpOutcomes, Measurement, Roi, SensorDevice, SensorError,
    SensorState,
};
use crate::sensor::period_covers_budget;
use crate::sensor::bring_up_result;
use crate::watchdog::WatchdogDeadline;

verus! {

/// Task id of the watchdog supervisor.
pub const WATCHDOG_TASK: usize = 0;

/// Task id of the interrupt-bound sensor task (edge-triggered mode).
pub const SENSOR_EDGE_TASK: usize = 1;

/// Task id of the timer-scheduled sensor poll task (polled mode).
pub const SENSOR_POLL_TASK: usize = 2;

/// The watchdog supervisor dominates every other software task, so sensor
/// activity can never starve a feed.
pub const WATCHDOG_PRIORITY: u8 = 2;

/// The edge task outranks everything: the hardware signal it answers has a
/// short validity window.
pub const SENSOR_EDGE_PRIORITY: u8 = 3;

/// Routine polling yields to both of the above.
pub const SENSOR_POLL_PRIORITY: u8 = 1;

/// Highest base priority among the tasks that ever touch the bus (the two
/// sensor tasks; the watchdog supervisor does not use it).
pub const BUS_CEILING: u8 = 3;

/// How data-ready is detected, fixed at configuration time.
#[derive(Clone, Copy, PartialEq, Eq, Structural, Debug)]
pub enum TriggerMode {
    /// The device asserts a signal line; the interrupt-bound task answers it.
    Edge,
    /// A timer task queries the device at a fixed, coarser interval.
    Polled,
}

/// Fixed deployment policy, chosen once at startup.
#[derive(Clone, Copy, PartialEq, Eq, Structural, Debug)]
pub struct SystemConfig {
    /// Hardware watchdog window, microseconds.
    pub watchdog_timeout: u64,
    /// Supervisor wake interval, microseconds; a sub-multiple of the window.
    pub feed_period: u64,
    pub trigger: TriggerMode,
    /// Poll task wake interval, microseconds (polled mode).
    pub poll_interval: u64,
    /// Clock reading at startup.
    pub start_now: u64,
}

/// What a clock tick dispatched.
#[derive(Clone, Copy, PartialEq, Eq, Structural, Debug)]
pub struct TickReport {
    /// The watchdog supervisor ran and fed the watchdog.
    pub fed: bool,
    /// The poll task ran (it may or may not have found data).
    pub poll_attempted: bool,
    /// Usable distance consumed this tick, if any.
    pub consumed: Option<u16>,
}

/// What an edge interrupt activation did.
#[derive(Clone, Copy, PartialEq, Eq, Structural, Debug)]
pub struct EdgeReport {
    /// The signal was pending and the task ran; the pending flag was cleared
    /// exactly once, before the bus was touched.
    pub serviced: bool,
    /// Usable distance consumed by this activation, if any.
    pub usable: Option<u16>,
}

/// The whole supervised system.
pub struct System {
    /// Monotonic microsecond clock reading.
    pub now: u64,
    pub sched: Executor,
    /// Priority-ceiling lock over the shared bus and delay provider.
    pub bus: CeilingLock,
    pub wd: WatchdogDeadline,
    /// Supervisor wake interval, microseconds.
    pub feed_period: u64,
    pub sensor: SensorDevice,
    pub trigger: TriggerMode,
    /// Poll task wake interval, microseconds.
    pub poll_interval: u64,
    /// The sensor's data-ready line was asserted and not yet acknowledged.
    pub pending_signal: bool,
    /// Latest usable distance, for the display collaborator; each new value
    /// supersedes the previous one.
    pub last_usable: Option<u16>,
}

/// A configuration the system can be built from.
pub open spec fn config_wf(cfg: SystemConfig) -> bool {
    &&& 1 <= cfg.feed_period
    &&& cfg.feed_period + cfg.feed_period <= cfg.watchdog_timeout
    &&& 1 <= cfg.poll_interval
    &&& cfg.start_now + cfg.feed_period <= u64::MAX
    &&& cfg.start_now + cfg.poll_interval <= u64::MAX
}

impl System {
    /// The system invariant.  Beyond the fixed wiring (three tasks, their
    /// kinds and priorities, the bus ceiling) it pins the facts the safety
    /// arguments rest on: the supervisor task is always queued, due within
    /// one feed period of the last feed, and never behind the clock; the
    /// feed period is a sub-multiple of the watchdog window; the bus is
    /// free between activations (no resource is held across a re-schedule
    /// boundary); and the sensor is well-formed.
    pub open spec fn inv(self) -> bool {
        &&& self.sched.tasks.len() == 3
        &&& self.sched.tasks[WATCHDOG_TASK as int].kind is TimerScheduled
        &&& self.sched.tasks[WATCHDOG_TASK as int].priority == WATCHDOG_PRIORITY
        &&& self.sched.tasks[SENSOR_EDGE_TASK as int].kind is InterruptBound
        &&& self.sched.tasks[SENSOR_EDGE_TASK as int].priority == SENSOR_EDGE_PRIORITY
        &&& self.sched.tasks[SENSOR_POLL_TASK as int].kind is TimerScheduled
        &&& self.sched.tasks[SENSOR_POLL_TASK as int].priority == SENSOR_POLL_PRIORITY
        &&& self.sched.tasks[WATCHDOG_TASK as int].state is Queued
        &&& self.sched.tasks[WATCHDOG_TASK as int].next_due <= self.wd.last_fed_at
            + self.feed_period
        &&& self.wd.last_fed_at <= self.now
        &&& self.now <= self.sched.tasks[WATCHDOG_TASK as int].next_due
        &&& 1 <= self.feed_period
        &&& self.feed_period + self.feed_period <= self.wd.timeout
        &&& self.sched.tasks[SENSOR_EDGE_TASK as int].state is Idle
        &&& !(self.sched.tasks[SENSOR_POLL_TASK as int].state is Running)
        &&& (self.trigger is Edge ==> self.sched.tasks[SENSOR_POLL_TASK as int].state is Idle)
        &&& self.bus.holder is None
        &&& self.bus.ceiling == BUS_CEILING
        &&& self.sensor.wf()
        &&& 1 <= self.poll_interval
    }

    /// Wire the system: create the fixed task set, start the watchdog and
    /// feed it once immediately, queue the supervisor's first wake-up, and in
    /// polled mode queue the poll task's first wake-up.
    pub fn new(cfg: SystemConfig) -> (s: System)
        requires
            config_wf(cfg),
        ensures
            s.inv(),
            s.now == cfg.start_now,
            s.wd.timeout == cfg.watchdog_timeout,
            s.wd.last_fed_at == cfg.start_now,
            s.feed_period == cfg.feed_period,
            s.trigger == cfg.trigger,
            s.poll_interval == cfg.poll_interval,
            s.sched.tasks[WATCHDOG_TASK as int].next_due == cfg.start_now + cfg.feed_period,
            s.trigger is Polled ==> s.sched.tasks[SENSOR_POLL_TASK as int].state is Queued
                && s.sched.tasks[SENSOR_POLL_TASK as int].next_due == cfg.start_now
                + cfg.poll_interval,
            s.sensor == SensorDevice::fresh_spec(),
            s.pending_signal == false,
            s.last_usable is None,
    {
        let mut tasks: Vec<Task> = Vec::new();
        tasks.push(
            Task {
                kind: TaskKind::TimerScheduled,
                priority: WATCHDOG_PRIORITY,
                state: TaskState::Idle,
                next_due: 0,
            },
        );
        tasks.push(
            Task {
                kind: TaskKind::InterruptBound,
                priority: SENSOR_EDGE_PRIORITY,
                state: TaskState::Idle,
                next_due: 0,
            },
        );
        tasks.push(
            Task {
                kind: TaskKind::TimerScheduled,
                priority: SENSOR_POLL_PRIORITY,
                state: TaskState::Idle,
                next_due: 0,
            },
        );
        let mut executor = Executor::new(tasks);
        let first_wake = executor.schedule_after(WATCHDOG_TASK, cfg.start_now, cfg.feed_period);
        proof {
            assert(first_wake);
        }
        let mut s = System {
            now: cfg.start_now,
            sched: executor,
            bus: CeilingLock::new(BUS_CEILING),
            wd: WatchdogDeadline::start(cfg.watchdog_timeout, cfg.start_now),
            feed_period: cfg.feed_period,
            sensor: SensorDevice::fresh(),
            trigger: cfg.trigger,
            poll_interval: cfg.poll_interval,
            pending_signal: false,
            last_usable: None,
        };
        if let TriggerMode::Polled = s.trigger {
            let now = s.now;
            let interval = s.poll_interval;
            let poll_wake = s.sched.schedule_after(SENSOR_POLL_TASK, now, interval);
            proof {
                assert(poll_wake);
            }
        }
        s
    }

    /// Bring the sensor up, from software reset through start-measurement.
    /// This runs during initialization, before the executor has dispatched
    /// any task, so the bus is exclusively ours by construction.
    pub fn bring_up_sensor(
        &mut self,
        roi: Option<Roi>,
        budget_us: u32,
        period_ms: u32,
        o: BringUpOutcomes,
    ) -> (r: Result<(), SensorError>)
        requires
            old(self).inv(),
            old(self).sensor.state is Uninitialized,
            old(self).sensor.init_progress == 0,
            budget_us >= 1,
            period_covers_budget(budget_us, period_ms),
        ensures
            final(self).inv(),
            r == bring_up_result(o, roi is Some),
            r is Ok ==> final(self).sensor.state is Measuring
                && final(self).sensor.timing_budget_us == budget_us
                && final(self).sensor.inter_measurement_period_ms == period_ms,
            r is Err ==> final(self).sensor.state is Faulted,
            final(self).now == old(self).now,
            final(self).wd == old(self).wd,
            final(self).sched.tasks@ == old(self).sched.tasks@,
            final(self).bus == old(self).bus,
            final(self).pending_signal == old(self).pending_signal,
            final(self).last_usable == old(self).last_usable,
            final(self).trigger == old(self).trigger,
            final(self).feed_period == old(self).feed_period,
            final(self).poll_interval == old(self).poll_interval,
    {
        self.sensor.bring_up(roi, budget_us, period_ms, o)
    }

    /// Let the clock reach `new_now`.  The platform's timer interrupt fires
    /// no later than the earliest pending deadline, so the clock is never
    /// observed past a queued wake time without the corresponding tick.
    pub fn advance(&mut self, new_now: u64)
        requires
            old(self).inv(),
            old(self).now <= new_now,
            forall|i: int|
                0 <= i < old(self).sched.tasks.len() && old(self).sched.tasks[i].kind is TimerScheduled && old(self).sched.tasks[i].state is Queued
                    ==> new_now <= old(self).sched.tasks[i].next_due,
        ensures
            final(self).inv(),
            final(self).now == new_now,
            final(self).sched.tasks@ == old(self).sched.tasks@,
            final(self).wd == old(self).wd,
            final(self).sensor == old(self).sensor,
            final(self).bus == old(self).bus,
            final(self).pending_signal == old(self).pending_signal,
            final(self).last_usable == old(self).last_usable,
            final(self).trigger == old(self).trigger,
            final(self).feed_period == old(self).feed_period,
            final(self).poll_interval == old(self).poll_interval,
    {
        self.now = new_now;
    }

    /// The watchdog supervisor's activation: feed, then re-schedule one feed
    /// period ahead.  The re-schedule is always accepted, because the task's
    /// slot was freed when it was dispatched.
    fn run_watchdog_task(&mut self)
        requires
            old(self).inv(),
            old(self).sched.eligible(WATCHDOG_TASK as int, old(self).now),
            old(self).now + old(self).feed_period <= u64::MAX,
        ensures
            final(self).inv(),
            final(self).now == old(self).now,
            final(self).wd.timeout == old(self).wd.timeout,
            final(self).wd.last_fed_at == old(self).now,
            final(self).sched.tasks@ == old(self).sched.tasks@.update(
                WATCHDOG_TASK as int,
                (Task {
                    state: TaskState::Queued,
                    next_due: (old(self).now + old(self).feed_period) as u64,
                    ..old(self).sched.tasks[WATCHDOG_TASK as int]
                }),
            ),
            final(self).sensor == old(self).sensor,
            final(self).bus == old(self).bus,
            final(self).pending_signal == old(self).pending_signal,
            final(self).last_usable == old(self).last_usable,
            final(self).trigger == old(self).trigger,
            final(self).feed_period == old(self).feed_period,
            final(self).poll_interval == old(self).poll_interval,
    {
        self.sched.begin_run(WATCHDOG_TASK);
        let now = self.now;
        self.wd.feed(now);
        self.sched.finish_run(WATCHDOG_TASK);
        let period = self.feed_period;
        let accepted = self.sched.schedule_after(WATCHDOG_TASK, now, period);
        proof {
            assert(accepted);
            assert(self.sched.tasks@ =~= old(self).sched.tasks@.update(
                WATCHDOG_TASK as int,
                (Task {
                    state: TaskState::Queued,
                    next_due: (old(self).now + old(self).feed_period) as u64,
                    ..old(self).sched.tasks[WATCHDOG_TASK as int]
                }),
            ));
        }
    }

    /// The poll task's activation: under the bus lock, query the device once
    /// (a bounded wait; `poll_ready` is false both when no data is waiting
    /// and when the query itself faulted, either being a skipped cycle, not
    /// an error), consume a waiting result, then re-schedule one poll
    /// interval ahead.
    fn run_poll_task(&mut self, poll_ready: bool, pending: Measurement, read_ok: bool) -> (consumed:
        Option<u16>)
        requires
            old(self).inv(),
            old(self).trigger is Polled,
            old(self).sched.eligible(SENSOR_POLL_TASK as int, old(self).now),
            old(self).now + old(self).poll_interval <= u64::MAX,
        ensures
            final(self).inv(),
            final(self).now == old(self).now,
            final(self).wd == old(self).wd,
            final(self).sched.tasks@ == old(self).sched.tasks@.update(
                SENSOR_POLL_TASK as int,
                (Task {
                    state: TaskState::Queued,
                    next_due: (old(self).now + old(self).poll_interval) as u64,
                    ..old(self).sched.tasks[SENSOR_POLL_TASK as int]
                }),
            ),
            final(self).sensor == old(self).sensor,
            final(self).bus == old(self).bus,
            final(self).pending_signal == old(self).pending_signal,
            final(self).trigger == old(self).trigger,
            final(self).feed_period == old(self).feed_period,
            final(self).poll_interval == old(self).poll_interval,
            consumed == (if old(self).sensor.state is Measuring && poll_ready && read_ok {
                usable_distance_spec(pending)
            } else {
                Option::<u16>::None
            }),
            final(self).last_usable == (if consumed is Some {
                consumed
            } else {
                old(self).last_usable
            }),
    {
        self.sched.begin_run(SENSOR_POLL_TASK);
        let mut consumed: Option<u16> = None;
        match self.sensor.state {
            SensorState::Measuring => {
                self.bus.acquire(SENSOR_POLL_TASK, SENSOR_POLL_PRIORITY);
                if poll_ready {
                    self.sensor.signal_data_ready();
                    consumed = self.sensor.read_and_restart(pending, read_ok);
                }
                self.bus.release(SENSOR_POLL_TASK);
            },
            _ => {},
        }
        if let Some(d) = consumed {
            self.last_usable = Some(d);
        }
        self.sched.finish_run(SENSOR_POLL_TASK);
        let now = self.now;
        let interval = self.poll_interval;
        let accepted = self.sched.schedule_after(SENSOR_POLL_TASK, now, interval);
        proof {
            assert(accepted);
            assert(self.sched.tasks@ =~= old(self).sched.tasks@.update(
                SENSOR_POLL_TASK as int,
                (Task {
                    state: TaskState::Queued,
                    next_due: (old(self).now + old(self).poll_interval) as u64,
                    ..old(self).sched.tasks[SENSOR_POLL_TASK as int]
                }),
            ));
        }
        consumed
    }

    /// A clock tick: dispatch every task that is due at the current instant,
    /// in priority order, each running to completion.  The watchdog
    /// supervisor, outranking the poll task, is fed exactly when it was due,
    /// whatever else is queued; afterwards no eligible work remains at this
    /// instant.
    pub fn tick(&mut self, poll_ready: bool, pending: Measurement, read_ok: bool) -> (r:
        TickReport)
        requires
            old(self).inv(),
            old(self).now + old(self).feed_period <= u64::MAX,
            old(self).now + old(self).poll_interval <= u64::MAX,
        ensures
            final(self).inv(),
            final(self).now == old(self).now,
            final(self).sensor == old(self).sensor,
            final(self).bus == old(self).bus,
            final(self).pending_signal == old(self).pending_signal,
            final(self).trigger == old(self).trigger,
            final(self).feed_period == old(self).feed_period,
            final(self).poll_interval == old(self).poll_interval,
            final(self).wd.timeout == old(self).wd.timeout,
            r.fed == (old(self).sched.tasks[WATCHDOG_TASK as int].next_due <= old(self).now),
            r.fed ==> final(self).wd.last_fed_at == old(self).now && final(self).sched.tasks[WATCHDOG_TASK as int].next_due == old(self).now + old(self).feed_period,
            !r.fed ==> final(self).wd == old(self).wd && final(self).sched.tasks[WATCHDOG_TASK as int] == old(self).sched.tasks[WATCHDOG_TASK as int],
            r.poll_attempted == old(self).sched.eligible(SENSOR_POLL_TASK as int, old(self).now),
            r.poll_attempted ==> final(self).sched.tasks[SENSOR_POLL_TASK as int].state is Queued
                && final(self).sched.tasks[SENSOR_POLL_TASK as int].next_due == old(self).now + old(self).poll_interval,
            !r.poll_attempted ==> final(self).sched.tasks[SENSOR_POLL_TASK as int] == old(self).sched.tasks[SENSOR_POLL_TASK as int],
            r.consumed == (if r.poll_attempted && old(self).sensor.state is Measuring && poll_ready
                && read_ok {
                usable_distance_spec(pending)
            } else {
                Option::<u16>::None
            }),
            final(self).last_usable == (if r.consumed is Some {
                r.consumed
            } else {
                old(self).last_usable
            }),
            forall|j: int| 0 <= j < 3 ==> !final(self).sched.eligible(j, old(self).now),
    {
        let mut report = TickReport { fed: false, poll_attempted: false, consumed: None };
        let now = self.now;
        let first = self.sched.next_ready(now);
        match first {
            None => {
                proof {
                    assert(!self.sched.eligible(WATCHDOG_TASK as int, now));
                    assert(!self.sched.eligible(SENSOR_POLL_TASK as int, now));
                }
            },
            Some(t1) => {
                if t1 == WATCHDOG_TASK {
                    self.run_watchdog_task();
                    report.fed = true;
                    let second = self.sched.next_ready(now);
                    match second {
                        None => {
                            proof {
                                assert(!self.sched.eligible(SENSOR_POLL_TASK as int, now));
                                assert(!old(self).sched.eligible(SENSOR_POLL_TASK as int, now));
                            }
                        },
                        Some(t2) => {
                            proof {
                                assert(t2 == SENSOR_POLL_TASK);
                                assert(self.trigger is Polled);
                                assert(old(self).sched.eligible(SENSOR_POLL_TASK as int, now));
                            }
                            let c = self.run_poll_task(poll_ready, pending, read_ok);
                            report.poll_attempted = true;
                            report.consumed = c;
                        },
                    }
                } else {
                    proof {
                        assert(t1 == SENSOR_POLL_TASK);
                        assert(self.trigger is Polled);
                        assert(!self.sched.eligible(WATCHDOG_TASK as int, now));
                    }
                    let c = self.run_poll_task(poll_ready, pending, read_ok);
                    report.poll_attempted = true;
                    report.consumed = c;
                }
            },
        }
        proof {
            assert(!self.sched.eligible(WATCHDOG_TASK as int, now));
            assert(!self.sched.eligible(SENSOR_EDGE_TASK as int, now));
            assert(!self.sched.eligible(SENSOR_POLL_TASK as int, now));
        }
        report
    }

    /// The sensor's data-ready line was asserted by the device.
    pub fn latch_signal(&mut self)
        requires
            old(self).inv(),
        ensures
            final(self).inv(),
            *final(self) == (System { pending_signal: true, ..*old(self) }),
    {
        self.pending_signal = true;
    }

    /// An edge interrupt activation: acknowledge and clear the pending
    /// signal first (so a stale signal cannot re-enter and a fresh assertion
    /// during handling is a new event), then run the interrupt-bound task to
    /// completion: under the bus lock, read the waiting result, clear the
    /// device flag and re-arm in one transaction.  A spurious activation
    /// with nothing pending does nothing.
    pub fn handle_edge_signal(&mut self, pending: Measurement, read_ok: bool) -> (r: EdgeReport)
        requires
            old(self).inv(),
            old(self).trigger is Edge,
        ensures
            final(self).inv(),
            final(self).now == old(self).now,
            final(self).wd == old(self).wd,
            final(self).sched.tasks@ == old(self).sched.tasks@,
            final(self).sensor == old(self).sensor,
            final(self).bus == old(self).bus,
            final(self).trigger == old(self).trigger,
            final(self).feed_period == old(self).feed_period,
            final(self).poll_interval == old(self).poll_interval,
            final(self).pending_signal == false,
            r.serviced == old(self).pending_signal,
            r.usable == (if old(self).pending_signal && old(self).sensor.state is Measuring
                && read_ok {
                usable_distance_spec(pending)
            } else {
                Option::<u16>::None
            }),
            final(self).last_usable == (if r.usable is Some {
                r.usable
            } else {
                old(self).last_usable
            }),
    {
        if !self.pending_signal {
            return EdgeReport { serviced: false, usable: None };
        }
        self.pending_signal = false;
        let activated = self.sched.activate(SENSOR_EDGE_TASK);
        self.sched.begin_run(SENSOR_EDGE_TASK);
        let mut usable: Option<u16> = None;
        match self.sensor.state {
            SensorState::Measuring => {
                self.bus.acquire(SENSOR_EDGE_TASK, SENSOR_EDGE_PRIORITY);
                self.sensor.signal_data_ready();
                usable = self.sensor.read_and_restart(pending, read_ok);
                self.bus.release(SENSOR_EDGE_TASK);
            },
            _ => {},
        }
        if let Some(d) = usable {
            self.last_usable = Some(d);
        }
        self.sched.finish_run(SENSOR_EDGE_TASK);
        proof {
            assert(self.sched.tasks@ =~= old(self).sched.tasks@);
        }
        EdgeReport { serviced: true, usable }
    }
}

/// Watchdog liveness: in every reachable state — every interleaving of
/// clock advances, ticks and interrupt activations preserves `inv` — the
/// hardware deadline has not lapsed, with at least half the window still
/// ahead.  The supervisor's next wake is never more than one feed period
/// after the last feed, the clock is never observed past that wake, and the
/// feed period is at most half the window.
pub proof fn lemma_watchdog_liveness(s: System)
    requires
        s.inv(),
    ensures
        s.wd.alive(s.now),
        s.now - s.wd.last_fed_at <= s.feed_period,
        s.now - s.wd.last_fed_at < s.wd.timeout,
{
}

} // verus!


